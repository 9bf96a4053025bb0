use vstd::prelude::*;
use vstd::string::*;

use crate::protocol::lookup;
use crate::records::DbCode;

verus! {

/// A character allowed in an entrypoint id of a module specifier.
pub open spec fn is_entrypoint_char(c: char) -> bool {
    ('a' <= c && c <= 'z') || ('A' <= c && c <= 'Z') || ('0' <= c && c <= '9') || c == '_' || c == '-'
}

/// An ASCII character that `\w` matches.
pub open spec fn is_ascii_word_char(c: char) -> bool {
    ('a' <= c && c <= 'z') || ('A' <= c && c <= 'Z') || ('0' <= c && c <= '9') || c == '_'
}

pub open spec fn is_ascii_char(c: char) -> bool {
    (c as u32) < 128
}

pub open spec fn view_prefix() -> Seq<char> {
    "plugin:view?"@
}

pub open spec fn module_prefix() -> Seq<char> {
    "plugin:module?"@
}

/// `s` is `prefix` followed by a non-empty entrypoint id.
pub open spec fn is_entrypoint_specifier(s: Seq<char>, prefix: Seq<char>) -> bool {
    &&& s.len() > prefix.len()
    &&& s.subrange(0, prefix.len() as int) == prefix
    &&& forall|i: int| prefix.len() <= i < s.len() ==> is_entrypoint_char(#[trigger] s[i])
}

/// `s` has the shape `./<name>.js` with a non-empty name.
pub open spec fn is_js_path_shape(s: Seq<char>) -> bool {
    &&& s.len() > 5
    &&& s.subrange(0, 2) == "./"@
    &&& s.subrange(s.len() - 3, s.len() as int) == ".js"@
}

pub open spec fn js_path_name(s: Seq<char>) -> Seq<char> {
    s.subrange(2, s.len() - 3)
}

/// A relative script path whose name is made of ASCII word characters.
pub open spec fn is_ascii_js_path(s: Seq<char>) -> bool {
    is_js_path_shape(s) && forall|i: int| 2 <= i < s.len() - 3 ==> is_ascii_word_char(#[trigger] s[i])
}

/// Relies on regex::Regex::is_match with the patterns
/// `^plugin:view\?(?<entrypoint_id>[a-zA-Z0-9_-]+)$` and
/// `^plugin:module\?(?<entrypoint_id>[a-zA-Z0-9_-]+)$`: the whole text is
/// `plugin:view?`, respectively `plugin:module?`, followed by one or more of
/// the listed characters.
#[verifier::external_body]
fn match_entrypoint_patterns(s: &str) -> (r: (bool, bool))
    ensures
        r.0 == is_entrypoint_specifier(s@, view_prefix()),
        r.1 == is_entrypoint_specifier(s@, module_prefix()),
{
    let view = regex::Regex::new(r"^plugin:view\?(?<entrypoint_id>[a-zA-Z0-9_-]+)$").unwrap().is_match(s);
    let module = regex::Regex::new(r"^plugin:module\?(?<entrypoint_id>[a-zA-Z0-9_-]+)$").unwrap().is_match(s);
    (view, module)
}

/// Relies on regex::Regex::captures with the pattern `^\./(?<js_module>\w+)\.js$`
/// and on the text of its group. `\w` matches the ASCII letters, digits and
/// `_` and no other ASCII character; which other characters it matches is
/// left open here.
#[verifier::external_body]
fn js_module_capture(s: &str) -> (r: Option<String>)
    ensures
        is_ascii_js_path(s@) ==> r is Some,
        r matches Some(m) ==> is_js_path_shape(s@) && m@ == js_path_name(s@) && forall|i: int|
            2 <= i < s@.len() - 3 && is_ascii_char(#[trigger] s@[i]) ==> is_ascii_word_char(s@[i]),
{
    regex::Regex::new(r"^\./(?<js_module>\w+)\.js$").unwrap().captures(s).and_then(
        |c| c.name("js_module").map(|m| m.as_str().to_owned()),
    )
}

/// The embedded module that a bare specifier names.
pub open spec fn static_module(s: Seq<char>) -> Option<Seq<char>> {
    if s == "plugin:core"@ {
        Some("plugin:core"@)
    } else if s == "plugin:renderer"@ {
        Some("plugin:renderer"@)
    } else if s == "react"@ {
        Some("plugin:react"@)
    } else if s == "react/jsx-runtime"@ {
        Some("plugin:react-jsx-runtime"@)
    } else {
        None
    }
}

/// The referrer is a script of the plugin itself.
pub open spec fn is_plugin_referrer(referrer: Seq<char>) -> bool {
    is_entrypoint_specifier(referrer, view_prefix()) || is_entrypoint_specifier(referrer, module_prefix())
}

/// A specifier that names no module.
#[derive(Debug, Clone)]
pub enum ResolveError {
    Unresolvable { specifier: String, referrer: String },
}

/// Resolves an import: a view of the plugin stands as it is; from the
/// plugin's own scripts, `./<name>.js` becomes `plugin:module?<name>`; the
/// four embedded modules are found by their bare names; anything else fails.
pub fn resolve(specifier: &str, referrer: &str) -> (r: Result<String, ResolveError>)
    ensures
        is_entrypoint_specifier(specifier@, view_prefix()) ==> (r matches Ok(t) && t@ == specifier@),
        !is_entrypoint_specifier(specifier@, view_prefix()) && is_plugin_referrer(referrer@) && is_ascii_js_path(
            specifier@,
        ) ==> (r matches Ok(t) && t@ == module_prefix() + js_path_name(specifier@)),
        !is_entrypoint_specifier(specifier@, view_prefix()) && is_plugin_referrer(referrer@) && is_js_path_shape(
            specifier@,
        ) ==> (r matches Ok(t) ==> t@ == module_prefix() + js_path_name(specifier@)),
        !is_entrypoint_specifier(specifier@, view_prefix()) && !(is_plugin_referrer(referrer@) && is_js_path_shape(
            specifier@,
        )) ==> match static_module(specifier@) {
            Some(t) => r matches Ok(x) && x@ == t,
            None => r matches Err(ResolveError::Unresolvable { specifier: s, referrer: f }) && s@ == specifier@
                && f@ == referrer@,
        },
{
    if match_entrypoint_patterns(specifier).0 {
        return Ok(specifier.to_owned());
    }
    let (from_view, from_module) = match_entrypoint_patterns(referrer);
    if from_view || from_module {
        if let Some(name) = js_module_capture(specifier) {
            let mut target = "plugin:module?".to_owned();
            target.append(name.as_str());
            return Ok(target);
        }
    }
    let s = specifier.to_owned();
    proof {
        reveal_strlit("./");
        reveal_strlit("plugin:core");
        reveal_strlit("plugin:renderer");
        reveal_strlit("react");
        reveal_strlit("react/jsx-runtime");
        if is_js_path_shape(s@) {
            assert(s@.subrange(0, 2)[0] == s@[0]);
            assert(s@[0] == '.');
            assert(s@ != "plugin:core"@);
            assert(s@ != "plugin:renderer"@);
            assert(s@ != "react"@);
            assert(s@ != "react/jsx-runtime"@);
        }
    }
    if s == "plugin:core".to_owned() {
        Ok("plugin:core".to_owned())
    } else if s == "plugin:renderer".to_owned() {
        Ok("plugin:renderer".to_owned())
    } else if s == "react".to_owned() {
        Ok("plugin:react".to_owned())
    } else if s == "react/jsx-runtime".to_owned() {
        Ok("plugin:react-jsx-runtime".to_owned())
    } else {
        Err(ResolveError::Unresolvable { specifier: s, referrer: referrer.to_owned() })
    }
}

/// The script name that a plugin specifier carries after `?`: `None` for a
/// specifier that is not `plugin:view?...` or `plugin:module?...`.
pub open spec fn plugin_module_name_spec(s: Seq<char>) -> Option<Seq<char>> {
    if s.len() >= view_prefix().len() && s.subrange(0, view_prefix().len() as int) == view_prefix() {
        Some(s.subrange(view_prefix().len() as int, s.len() as int))
    } else if s.len() >= module_prefix().len() && s.subrange(0, module_prefix().len() as int) == module_prefix() {
        Some(s.subrange(module_prefix().len() as int, s.len() as int))
    } else {
        None
    }
}

pub fn plugin_module_name(specifier: &str) -> (r: Option<String>)
    ensures
        match plugin_module_name_spec(specifier@) {
            Some(n) => r matches Some(m) && m@ == n,
            None => r is None,
        },
{
    proof {
        reveal_strlit("plugin:view?");
        reveal_strlit("plugin:module?");
    }
    let n = specifier.unicode_len();
    if n >= 12 && specifier.substring_char(0, 12).to_owned() == "plugin:view?".to_owned() {
        return Some(specifier.substring_char(12, n).to_owned());
    }
    if n >= 14 && specifier.substring_char(0, 14).to_owned() == "plugin:module?".to_owned() {
        return Some(specifier.substring_char(14, n).to_owned());
    }
    None
}

/// Where the source of a module comes from.
#[derive(Debug, Clone)]
pub enum LoadedModule {
    /// One of the plugin's own scripts.
    Plugin { source: String },
    /// One of the embedded modules.
    Static,
}

/// A plugin specifier whose script the plugin does not have.
#[derive(Debug, Clone)]
pub enum LoadError {
    MissingScript { name: String },
}

/// Loads a resolved module: a plugin specifier gets the plugin's script of
/// that name, any other is left to the embedded modules.
pub fn load_module(code: &DbCode, specifier: &str) -> (r: Result<LoadedModule, LoadError>)
    ensures
        match plugin_module_name_spec(specifier@) {
            None => r matches Ok(LoadedModule::Static),
            Some(n) => match lookup(code.js@, n) {
                Some(src) => r matches Ok(LoadedModule::Plugin { source }) && source == src,
                None => r matches Err(LoadError::MissingScript { name }) && name@ == n,
            },
        },
{
    match plugin_module_name(specifier) {
        None => Ok(LoadedModule::Static),
        Some(name) => match code.js_for(&name) {
            Some(source) => Ok(LoadedModule::Plugin { source }),
            None => Err(LoadError::MissingScript { name }),
        },
    }
}

/// The module loader of one plugin: the embedded modules by name, and the
/// plugin's own scripts by entrypoint.
#[derive(Debug, Clone)]
pub struct CustomModuleLoader {
    pub code: DbCode,
}

impl CustomModuleLoader {
    pub fn new(code: DbCode) -> (r: CustomModuleLoader)
        ensures
            r.code == code,
    {
        CustomModuleLoader { code }
    }

    /// See [`resolve`].
    pub fn resolve(&self, specifier: &str, referrer: &str) -> (r: Result<String, ResolveError>)
        ensures
            is_entrypoint_specifier(specifier@, view_prefix()) ==> (r matches Ok(t) && t@ == specifier@),
            !is_entrypoint_specifier(specifier@, view_prefix()) && is_plugin_referrer(referrer@) && is_ascii_js_path(
                specifier@,
            ) ==> (r matches Ok(t) && t@ == module_prefix() + js_path_name(specifier@)),
            !is_entrypoint_specifier(specifier@, view_prefix()) && is_plugin_referrer(referrer@) && is_js_path_shape(
                specifier@,
            ) ==> (r matches Ok(t) ==> t@ == module_prefix() + js_path_name(specifier@)),
            !is_entrypoint_specifier(specifier@, view_prefix()) && !(is_plugin_referrer(referrer@)
                && is_js_path_shape(specifier@)) ==> match static_module(specifier@) {
                Some(t) => r matches Ok(x) && x@ == t,
                None => r matches Err(ResolveError::Unresolvable { specifier: s, referrer: f }) && s@ == specifier@
                    && f@ == referrer@,
            },
    {
        resolve(specifier, referrer)
    }

    /// See [`load_module`].
    pub fn load(&self, specifier: &str) -> (r: Result<LoadedModule, LoadError>)
        ensures
            match plugin_module_name_spec(specifier@) {
                None => r matches Ok(LoadedModule::Static),
                Some(n) => match lookup(self.code.js@, n) {
                    Some(src) => r matches Ok(LoadedModule::Plugin { source }) && source == src,
                    None => r matches Err(LoadError::MissingScript { name }) && name@ == n,
                },
            },
    {
        load_module(&self.code, specifier)
    }
}

} // verus!
