//! Runtime selection for uploaded sites: language detection from a listing
//! of the site's top-level files, the interpreter module of each language,
//! and the process file-descriptor limit policy.
use vstd::prelude::*;
use vstd::string::*;
use crate::sites::same_text;

verus! {

/// A language a site is written in.
#[derive(Debug, Clone, Copy, PartialEq, Eq, Structural)]
#[allow(non_camel_case_types, clippy::upper_case_acronyms)]
pub enum DetectedLanguage {
    PHP,
    Python,
    NodeJS,
    Ruby,
    StaticFiles,
    Unknown,
}

/// Why a runtime could not be chosen.
#[derive(Debug, Clone, Copy, PartialEq, Eq, Structural)]
pub enum PolyglotError {
    /// No runtime serves an unknown language.
    UnknownLanguage,
    /// The runtime module is not installed.
    RuntimeNotFound,
}

/// Whether the listing holds a file of exactly this name.
pub open spec fn listed(files: Seq<String>, name: Seq<char>) -> bool {
    exists|i: int| 0 <= i < files.len() && (#[trigger] files[i])@ == name
}

/// Whether a file name has this extension after a non-empty stem.
pub open spec fn has_ext(name: Seq<char>, ext: Seq<char>) -> bool {
    &&& name.len() > ext.len() + 1
    &&& name.subrange(name.len() - ext.len(), name.len() as int) == ext
    &&& name[name.len() - ext.len() - 1] == '.'
}

/// Whether some listed file has this extension.
pub open spec fn listed_ext(files: Seq<String>, ext: Seq<char>) -> bool {
    exists|i: int| 0 <= i < files.len() && has_ext((#[trigger] files[i])@, ext)
}

/// The language a listing of top-level files shows, checked in order: PHP,
/// Python, Node.js, Ruby, static HTML.
pub open spec fn spec_language(files: Seq<String>) -> DetectedLanguage {
    if listed(files, "index.php"@) || listed(files, "composer.json"@) || listed_ext(files, "php"@) {
        DetectedLanguage::PHP
    } else if listed(files, "requirements.txt"@) || listed(files, "setup.py"@) || listed(files, "pyproject.toml"@)
        || listed(files, "app.py"@) || listed(files, "main.py"@) {
        DetectedLanguage::Python
    } else if listed(files, "package.json"@) || listed(files, "server.js"@) || listed(files, "index.js"@) {
        DetectedLanguage::NodeJS
    } else if listed(files, "Gemfile"@) || listed(files, "config.ru"@) {
        DetectedLanguage::Ruby
    } else if listed(files, "index.html"@) || listed_ext(files, "html"@) {
        DetectedLanguage::StaticFiles
    } else {
        DetectedLanguage::Unknown
    }
}

/// The runtime module of a language.
pub open spec fn spec_wasm_name(lang: DetectedLanguage) -> Seq<char> {
    match lang {
        DetectedLanguage::PHP => "php-cgi.wasm"@,
        DetectedLanguage::Python => "python3.11-wasi.wasm"@,
        DetectedLanguage::NodeJS => "node-wasi.wasm"@,
        DetectedLanguage::Ruby => "ruby-wasi.wasm"@,
        DetectedLanguage::StaticFiles => "static-server.wasm"@,
        DetectedLanguage::Unknown => Seq::empty(),
    }
}

/// `name` inside directory `dir`, joined with one separator.
pub open spec fn spec_join(dir: Seq<char>, name: Seq<char>) -> Seq<char> {
    if dir.len() == 0 {
        name
    } else if dir.last() == '/' {
        dir + name
    } else {
        dir + "/"@ + name
    }
}

/// How a language's runtime is started.
#[derive(Debug, Clone)]
pub struct RuntimeConfig {
    pub entry_point: String,
    pub env_vars: Vec<(String, String)>,
    pub memory_limit_mb: usize,
}

/// The entry point a language's runtime starts from.
pub open spec fn spec_entry_point(lang: DetectedLanguage) -> Seq<char> {
    match lang {
        DetectedLanguage::PHP => "index.php"@,
        DetectedLanguage::Python => "app.py"@,
        DetectedLanguage::NodeJS => "index.js"@,
        DetectedLanguage::Ruby => "config.ru"@,
        _ => "index.html"@,
    }
}

/// The memory a language's runtime gets, in megabytes.
pub open spec fn spec_memory_mb(lang: DetectedLanguage) -> usize {
    match lang {
        DetectedLanguage::PHP => 256,
        DetectedLanguage::Python => 512,
        DetectedLanguage::NodeJS => 512,
        DetectedLanguage::Ruby => 256,
        _ => 64,
    }
}

fn has_file(files: &Vec<String>, name: &str) -> (r: bool)
    ensures
        r == listed(files@, name@),
{
    let mut i: usize = 0;
    while i < files.len()
        invariant
            i <= files@.len(),
            forall|k: int| 0 <= k < i ==> (#[trigger] files@[k])@ != name@,
        decreases files@.len() - i,
    {
        if same_text(files[i].as_str(), name) {
            return true;
        }
        i = i + 1;
    }
    false
}

fn name_has_ext(name: &str, ext: &str) -> (r: bool)
    ensures
        r == has_ext(name@, ext@),
{
    let n = name.unicode_len();
    let e = ext.unicode_len();
    if n <= e || n - e <= 1 {
        return false;
    }
    if name.get_char(n - e - 1) != '.' {
        return false;
    }
    let tail = name.substring_char(n - e, n);
    same_text(tail, ext)
}

fn has_extension(files: &Vec<String>, ext: &str) -> (r: bool)
    ensures
        r == listed_ext(files@, ext@),
{
    let mut i: usize = 0;
    while i < files.len()
        invariant
            i <= files@.len(),
            forall|k: int| 0 <= k < i ==> !has_ext((#[trigger] files@[k])@, ext@),
        decreases files@.len() - i,
    {
        if name_has_ext(files[i].as_str(), ext) {
            return true;
        }
        i = i + 1;
    }
    false
}

/// Chooses the runtime module of a site.
#[derive(Debug, Clone)]
pub struct PolyglotAdapter {
    /// Directory that holds the runtime modules.
    pub runtime_dir: String,
}

impl PolyglotAdapter {
    pub fn new(runtime_dir: String) -> (r: Self)
        ensures
            r.runtime_dir == runtime_dir,
    {
        PolyglotAdapter { runtime_dir }
    }

    /// The language of a site from the names of its top-level files (see
    /// `spec_language`).
    pub fn detect_language(&self, file_names: &Vec<String>) -> (r: DetectedLanguage)
        ensures
            r == spec_language(file_names@),
    {
        if has_file(file_names, "index.php") || has_file(file_names, "composer.json") || has_extension(file_names, "php") {
            return DetectedLanguage::PHP;
        }
        if has_file(file_names, "requirements.txt") || has_file(file_names, "setup.py")
            || has_file(file_names, "pyproject.toml") || has_file(file_names, "app.py") || has_file(file_names, "main.py") {
            return DetectedLanguage::Python;
        }
        if has_file(file_names, "package.json") || has_file(file_names, "server.js") || has_file(file_names, "index.js") {
            return DetectedLanguage::NodeJS;
        }
        if has_file(file_names, "Gemfile") || has_file(file_names, "config.ru") {
            return DetectedLanguage::Ruby;
        }
        if has_file(file_names, "index.html") || has_extension(file_names, "html") {
            return DetectedLanguage::StaticFiles;
        }
        DetectedLanguage::Unknown
    }

    /// The path of a language's runtime module under `runtime_dir`; an
    /// unknown language has none. Whether the file exists is for the caller
    /// to check.
    pub fn get_runtime_wasm(&self, language: &DetectedLanguage) -> (r: Result<String, PolyglotError>)
        ensures
            *language == DetectedLanguage::Unknown <==> r == Err::<String, PolyglotError>(PolyglotError::UnknownLanguage),
            r.is_ok() ==> r.unwrap()@ == spec_join(self.runtime_dir@, spec_wasm_name(*language)),
    {
        let name: &str = match language {
            DetectedLanguage::PHP => "php-cgi.wasm",
            DetectedLanguage::Python => "python3.11-wasi.wasm",
            DetectedLanguage::NodeJS => "node-wasi.wasm",
            DetectedLanguage::Ruby => "ruby-wasi.wasm",
            DetectedLanguage::StaticFiles => "static-server.wasm",
            DetectedLanguage::Unknown => {
                return Err(PolyglotError::UnknownLanguage);
            },
        };
        let dir = self.runtime_dir.as_str();
        let n = dir.unicode_len();
        if n == 0 {
            return Ok(String::from_str(name));
        }
        let mut path = self.runtime_dir.clone();
        if dir.get_char(n - 1) != '/' {
            path.append("/");
        }
        path.append(name);
        Ok(path)
    }

    /// Entry point, environment and memory of a language's runtime.
    pub fn get_runtime_config(&self, language: &DetectedLanguage) -> (r: RuntimeConfig)
        ensures
            r.entry_point@ == spec_entry_point(*language),
            r.memory_limit_mb == spec_memory_mb(*language),
    {
        match language {
            DetectedLanguage::PHP => {
                let mut env: Vec<(String, String)> = Vec::new();
                env.push((String::from_str("SCRIPT_FILENAME"), String::from_str("/var/www/index.php")));
                env.push((String::from_str("REDIRECT_STATUS"), String::from_str("200")));
                RuntimeConfig { entry_point: String::from_str("index.php"), env_vars: env, memory_limit_mb: 256 }
            },
            DetectedLanguage::Python => {
                let mut env: Vec<(String, String)> = Vec::new();
                env.push((String::from_str("PYTHONPATH"), String::from_str("/var/www")));
                RuntimeConfig { entry_point: String::from_str("app.py"), env_vars: env, memory_limit_mb: 512 }
            },
            DetectedLanguage::NodeJS => {
                let mut env: Vec<(String, String)> = Vec::new();
                env.push((String::from_str("NODE_PATH"), String::from_str("/var/www/node_modules")));
                RuntimeConfig { entry_point: String::from_str("index.js"), env_vars: env, memory_limit_mb: 512 }
            },
            DetectedLanguage::Ruby => {
                RuntimeConfig { entry_point: String::from_str("config.ru"), env_vars: Vec::new(), memory_limit_mb: 256 }
            },
            _ => {
                RuntimeConfig { entry_point: String::from_str("index.html"), env_vars: Vec::new(), memory_limit_mb: 64 }
            },
        }
    }
}

/// The deployment hint shown for a language.
pub open spec fn spec_advice(lang: DetectedLanguage) -> Seq<char> {
    match lang {
        DetectedLanguage::PHP => "PHP detected. Ensure composer dependencies are installed. The php-cgi.wasm runtime will handle PHP execution."@,
        DetectedLanguage::Python => "Python detected. Install dependencies listed in requirements.txt. The Python 3.11 WASI runtime will execute your application."@,
        DetectedLanguage::NodeJS => "Node.js detected. Run 'npm install' to install dependencies. The Node.js WASI runtime will execute your application."@,
        DetectedLanguage::Ruby => "Ruby detected. Run 'bundle install' for dependencies. The Ruby WASI runtime will execute via Rack."@,
        DetectedLanguage::StaticFiles => "Static HTML detected. A lightweight file server will serve your files."@,
        DetectedLanguage::Unknown => "Language could not be detected. Please specify runtime manually or ensure your project has standard files (index.php, package.json, etc.)"@,
    }
}

/// A deployment hint for the user.
pub fn get_deployment_advice(language: &DetectedLanguage) -> (r: String)
    ensures
        r@ == spec_advice(*language),
{
    let text: &str = match language {
        DetectedLanguage::PHP => "PHP detected. Ensure composer dependencies are installed. The php-cgi.wasm runtime will handle PHP execution.",
        DetectedLanguage::Python => "Python detected. Install dependencies listed in requirements.txt. The Python 3.11 WASI runtime will execute your application.",
        DetectedLanguage::NodeJS => "Node.js detected. Run 'npm install' to install dependencies. The Node.js WASI runtime will execute your application.",
        DetectedLanguage::Ruby => "Ruby detected. Run 'bundle install' for dependencies. The Ruby WASI runtime will execute via Rack.",
        DetectedLanguage::StaticFiles => "Static HTML detected. A lightweight file server will serve your files.",
        DetectedLanguage::Unknown => "Language could not be detected. Please specify runtime manually or ensure your project has standard files (index.php, package.json, etc.)",
    };
    proof {
        reveal_strlit("PHP detected. Ensure composer dependencies are installed. The php-cgi.wasm runtime will handle PHP execution.");
        reveal_strlit("Python detected. Install dependencies listed in requirements.txt. The Python 3.11 WASI runtime will execute your application.");
        reveal_strlit("Node.js detected. Run 'npm install' to install dependencies. The Node.js WASI runtime will execute your application.");
        reveal_strlit("Ruby detected. Run 'bundle install' for dependencies. The Ruby WASI runtime will execute via Rack.");
        reveal_strlit("Static HTML detected. A lightweight file server will serve your files.");
        reveal_strlit("Language could not be detected. Please specify runtime manually or ensure your project has standard files (index.php, package.json, etc.)");
    }
    String::from_str(text)
}

/// Descriptor limit the server aims for: room for a million connections.
pub const TARGET_FD_LIMIT: u64 = 1048576;
/// Descriptor limit below which connection capacity is reduced.
pub const MIN_FD_LIMIT: u64 = 65536;

/// The soft descriptor limit to request given the current soft and hard
/// limits: the target capped by the hard limit, when that is a raise.
pub fn fd_limit_plan(soft: u64, hard: u64) -> (r: Option<u64>)
    ensures
        ({
            let want = if TARGET_FD_LIMIT < hard { TARGET_FD_LIMIT } else { hard };
            &&& soft < want ==> r == Some(want)
            &&& soft >= want ==> r.is_none()
        }),
{
    let want = if TARGET_FD_LIMIT < hard { TARGET_FD_LIMIT } else { hard };
    if soft < want { Some(want) } else { None }
}

/// Whether a soft descriptor limit reaches the recommended minimum.
pub fn fd_limit_sufficient(soft: u64) -> (r: bool)
    ensures
        r == (soft >= MIN_FD_LIMIT),
{
    soft >= MIN_FD_LIMIT
}

} // verus!
