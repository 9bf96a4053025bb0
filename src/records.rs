use vstd::prelude::*;

use vstd::string::*;

use crate::protocol::lookup;

verus! {

/// The scripts of a plugin: entrypoint or module name, then its source text.
/// A later pair overrides an earlier one with the same name.
#[derive(Debug, Clone)]
pub struct DbCode {
    pub js: Vec<(String, String)>,
}

impl DbCode {
    /// The source of the script named `name`, if the plugin has one.
    pub fn js_for(&self, name: &String) -> (r: Option<String>)
        ensures
            r == lookup(self.js@, name@),
    {
        let mut i: usize = self.js.len();
        proof {
            assert(self.js@.take(i as int) =~= self.js@);
        }
        while i > 0
            invariant
                i <= self.js@.len(),
                lookup(self.js@, name@) == lookup(self.js@.take(i as int), name@),
            decreases i,
        {
            proof {
                assert(self.js@.take(i as int).drop_last() =~= self.js@.take(i - 1));
                assert(self.js@.take(i as int).last() == self.js@[i - 1]);
            }
            if self.js[i - 1].0 == *name {
                return Some(self.js[i - 1].1.clone());
            }
            i = i - 1;
        }
        None
    }
}

/// The capability set of a plugin. Every list starts empty, which denies.
#[derive(Debug, Clone)]
pub struct DbPluginPermissions {
    pub environment: Vec<String>,
    pub high_resolution_time: bool,
    pub network: Vec<String>,
    pub ffi: Vec<String>,
    pub fs_read_access: Vec<String>,
    pub fs_write_access: Vec<String>,
    pub run_subprocess: Vec<String>,
    pub system: Vec<String>,
}

/// `s` is one of `list`.
pub open spec fn listed(list: Seq<String>, s: Seq<char>) -> bool {
    exists|i: int| 0 <= i < list.len() && (#[trigger] list[i])@ == s
}

/// Some entry of `list` is a prefix of `s`.
pub open spec fn under_listed_prefix(list: Seq<String>, s: Seq<char>) -> bool {
    exists|i: int| 0 <= i < list.len() && (#[trigger] list[i])@.is_prefix_of(s)
}

fn contains_string(list: &Vec<String>, s: &String) -> (r: bool)
    ensures
        r == listed(list@, s@),
{
    let mut i: usize = 0;
    while i < list.len()
        invariant
            i <= list@.len(),
            forall|j: int| 0 <= j < i ==> (#[trigger] list@[j])@ != s@,
        decreases list.len() - i,
    {
        if list[i] == *s {
            return true;
        }
        i = i + 1;
    }
    false
}

fn is_prefix(p: &String, s: &String) -> (r: bool)
    ensures
        r == p@.is_prefix_of(s@),
{
    let pn = p.as_str().unicode_len();
    let sn = s.as_str().unicode_len();
    if pn > sn {
        return false;
    }
    let mut i: usize = 0;
    while i < pn
        invariant
            pn == p@.len(),
            sn == s@.len(),
            pn <= sn,
            i <= pn,
            forall|j: int| 0 <= j < i ==> p@[j] == s@[j],
        decreases pn - i,
    {
        if p.as_str().get_char(i) != s.as_str().get_char(i) {
            return false;
        }
        i = i + 1;
    }
    proof {
        assert(p@ =~= s@.subrange(0, p@.len() as int));
    }
    true
}

fn has_listed_prefix(list: &Vec<String>, s: &String) -> (r: bool)
    ensures
        r == under_listed_prefix(list@, s@),
{
    let mut i: usize = 0;
    while i < list.len()
        invariant
            i <= list@.len(),
            forall|j: int| 0 <= j < i ==> !(#[trigger] list@[j])@.is_prefix_of(s@),
        decreases list.len() - i,
    {
        if is_prefix(&list[i], s) {
            return true;
        }
        i = i + 1;
    }
    false
}

impl DbPluginPermissions {
    /// No capability at all.
    pub fn new() -> (r: DbPluginPermissions)
        ensures
            r.environment@.len() == 0,
            !r.high_resolution_time,
            r.network@.len() == 0,
            r.ffi@.len() == 0,
            r.fs_read_access@.len() == 0,
            r.fs_write_access@.len() == 0,
            r.run_subprocess@.len() == 0,
            r.system@.len() == 0,
    {
        DbPluginPermissions {
            environment: Vec::new(),
            high_resolution_time: false,
            network: Vec::new(),
            ffi: Vec::new(),
            fs_read_access: Vec::new(),
            fs_write_access: Vec::new(),
            run_subprocess: Vec::new(),
            system: Vec::new(),
        }
    }

    /// Whether the environment variable `name` may be read.
    pub fn allows_environment(&self, name: &String) -> (r: bool)
        ensures
            r == listed(self.environment@, name@),
    {
        contains_string(&self.environment, name)
    }

    /// Whether `host` may be reached over the network.
    pub fn allows_network(&self, host: &String) -> (r: bool)
        ensures
            r == listed(self.network@, host@),
    {
        contains_string(&self.network, host)
    }

    /// Whether the native library at `path` may be loaded.
    pub fn allows_ffi(&self, path: &String) -> (r: bool)
        ensures
            r == listed(self.ffi@, path@),
    {
        contains_string(&self.ffi, path)
    }

    /// Whether `path` lies under a prefix granted for reading.
    pub fn allows_read(&self, path: &String) -> (r: bool)
        ensures
            r == under_listed_prefix(self.fs_read_access@, path@),
    {
        has_listed_prefix(&self.fs_read_access, path)
    }

    /// Whether `path` lies under a prefix granted for writing.
    pub fn allows_write(&self, path: &String) -> (r: bool)
        ensures
            r == under_listed_prefix(self.fs_write_access@, path@),
    {
        has_listed_prefix(&self.fs_write_access, path)
    }

    /// Whether the executable `name` may be run.
    pub fn allows_subprocess(&self, name: &String) -> (r: bool)
        ensures
            r == listed(self.run_subprocess@, name@),
    {
        contains_string(&self.run_subprocess, name)
    }

    /// Whether the system-info facet `facet` may be queried.
    pub fn allows_system(&self, facet: &String) -> (r: bool)
        ensures
            r == listed(self.system@, facet@),
    {
        contains_string(&self.system, facet)
    }
}

/// One option of an enum preference.
#[derive(Debug, Clone)]
pub struct DbPreferenceEnumValue {
    pub label: String,
    pub value: String,
}

/// A plugin that waits to be downloaded, as read from the store.
#[derive(Debug, Clone)]
pub struct DbReadPendingPlugin {
    pub id: String,
}

/// A plugin that waits to be downloaded, as written to the store.
#[derive(Debug, Clone)]
pub struct DbWritePendingPlugin {
    pub id: String,
}

} // verus!
