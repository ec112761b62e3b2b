//! Toolchain profiles: which marker files tell a project's language, and
//! the archive directory and build command that go with it.

use vstd::prelude::*;
use vstd::utf8::encode_utf8;
use vstd::utf8::encode_utf8_decode_utf8;

verus! {

/// A toolchain profile.
#[derive(Clone, Debug)]
pub struct Lang {
    name: &'static str,
    watches: Vec<&'static str>,
    build: &'static str,
    command: &'static str,
}

pub struct LangView {
    pub name: Seq<char>,
    /// The marker files, which are also the default watch list.
    pub watches: Seq<Seq<char>>,
    /// The default archive directory.
    pub build: Seq<char>,
    /// The default build command.
    pub command: Seq<char>,
}

/// The texts of a list of names.
pub open spec fn texts(names: Seq<&'static str>) -> Seq<Seq<char>> {
    names.map_values(|w: &'static str| w@)
}

impl View for Lang {
    type V = LangView;

    closed spec fn view(&self) -> LangView {
        LangView {
            name: self.name@,
            watches: texts(self.watches@),
            build: self.build@,
            command: self.command@,
        }
    }
}

/// Whether a file of that name is among `files`.
pub open spec fn has_file(files: Seq<String>, name: Seq<char>) -> bool {
    exists|j: int| 0 <= j < files.len() && (#[trigger] files[j])@ == name
}

/// Whether every marker file of the profile is among `files`.
pub open spec fn matches_lang(lang: LangView, files: Seq<String>) -> bool {
    forall|i: int| 0 <= i < lang.watches.len() ==> has_file(files, #[trigger] lang.watches[i])
}

/// The known profiles, in the order in which they are tried.
pub open spec fn table() -> Seq<LangView> {
    seq![
        LangView {
            name: "rust"@,
            watches: seq!["Cargo.toml"@, "Cargo.lock"@],
            build: "target"@,
            command: "cargo build"@,
        },
        LangView {
            name: "yarn"@,
            watches: seq!["package.json"@, "yarn.lock"@],
            build: "node_modules"@,
            command: "yarn build"@,
        },
        LangView {
            name: "node_js"@,
            watches: seq!["package.json"@, "package-lock.json"@],
            build: "node_modules"@,
            command: "npm build"@,
        },
        LangView {
            name: "ruby"@,
            watches: seq!["Gemfile"@, "Gemfile.lock"@],
            build: "vendor"@,
            command: "bundle install --path vendor/bundle"@,
        },
        LangView {
            name: "crystal"@,
            watches: seq!["shard.yaml"@, "shard.lock"@],
            build: "lib"@,
            command: "shards build"@,
        },
    ]
}

/// The first profile of `profiles` whose marker files are all among `files`.
pub open spec fn spec_detect(profiles: Seq<LangView>, files: Seq<String>) -> Option<LangView>
    decreases profiles.len(),
{
    if profiles.len() == 0 {
        None
    } else if matches_lang(profiles[0], files) {
        Some(profiles[0])
    } else {
        spec_detect(profiles.drop_first(), files)
    }
}

/// The profiles that a list holds.
pub open spec fn views(langs: Seq<Lang>) -> Seq<LangView> {
    langs.map_values(|l: Lang| l@)
}

/// Whether two strings hold the same text.
pub fn same_text(a: &str, b: &str) -> (r: bool)
    ensures
        r == (a@ == b@),
{
    let x = a.as_bytes();
    let y = b.as_bytes();
    proof {
        encode_utf8_decode_utf8(a@);
        encode_utf8_decode_utf8(b@);
    }
    if x.len() != y.len() {
        return false;
    }
    let mut i: usize = 0;
    while i < x.len()
        invariant
            i <= x.len(),
            x.len() == y.len(),
            x@ == encode_utf8(a@),
            y@ == encode_utf8(b@),
            forall|k: int| 0 <= k < i ==> x@[k] == y@[k],
        decreases x.len() - i,
    {
        if x[i] != y[i] {
            assert(x@[i as int] != y@[i as int]);
            return false;
        }
        i = i + 1;
    }
    proof {
        assert(x@ =~= y@);
    }
    true
}

/// Whether a file of that name is among `files`.
fn contains_name(files: &Vec<String>, name: &str) -> (r: bool)
    ensures
        r == has_file(files@, name@),
{
    let mut j: usize = 0;
    while j < files.len()
        invariant
            j <= files.len(),
            forall|k: int| 0 <= k < j ==> (#[trigger] files@[k])@ != name@,
        decreases files.len() - j,
    {
        if same_text(files[j].as_str(), name) {
            return true;
        }
        j = j + 1;
    }
    false
}

impl Lang {
    /// A profile of the given name, marker files, archive directory and
    /// build command.
    pub fn new(
        name: &'static str,
        watches: Vec<&'static str>,
        build: &'static str,
        command: &'static str,
    ) -> (lang: Lang)
        ensures
            lang@ == (LangView {
                name: name@,
                watches: texts(watches@),
                build: build@,
                command: command@,
            }),
    {
        Lang { name, watches, build, command }
    }

    /// The profile's name.
    pub fn name(&self) -> (r: &&'static str)
        ensures
            (**r)@ == self@.name,
    {
        &self.name
    }

    /// The marker files, which are also the default watch list.
    pub fn watches(&self) -> (r: &Vec<&'static str>)
        ensures
            texts(r@) == self@.watches,
    {
        &self.watches
    }

    /// The default archive directory.
    pub fn build(&self) -> (r: &&'static str)
        ensures
            (**r)@ == self@.build,
    {
        &self.build
    }

    /// The default build command.
    pub fn command(&self) -> (r: &&'static str)
        ensures
            (**r)@ == self@.command,
    {
        &self.command
    }

    /// Whether the project is of this profile: each of its marker files is
    /// among `files`, the names of the regular files in the project's
    /// directory.
    pub fn is_it(&self, files: &Vec<String>) -> (r: bool)
        ensures
            r == matches_lang(self@, files@),
    {
        let mut i: usize = 0;
        while i < self.watches.len()
            invariant
                i <= self.watches.len(),
                forall|k: int| 0 <= k < i ==> has_file(files@, #[trigger] self@.watches[k]),
            decreases self.watches.len() - i,
        {
            if !contains_name(files, self.watches[i]) {
                assert(self@.watches[i as int] == self.watches@[i as int]@);
                return false;
            }
            i = i + 1;
        }
        true
    }
}

/// The known profiles.
pub fn langs() -> (r: Vec<Lang>)
    ensures
        views(r@) == table(),
{
    let rust = Lang::new("rust", vec!["Cargo.toml", "Cargo.lock"], "target", "cargo build");
    let yarn = Lang::new("yarn", vec!["package.json", "yarn.lock"], "node_modules", "yarn build");
    let node_js = Lang::new(
        "node_js",
        vec!["package.json", "package-lock.json"],
        "node_modules",
        "npm build",
    );
    let ruby = Lang::new(
        "ruby",
        vec!["Gemfile", "Gemfile.lock"],
        "vendor",
        "bundle install --path vendor/bundle",
    );
    let crystal = Lang::new("crystal", vec!["shard.yaml", "shard.lock"], "lib", "shards build");
    proof {
        assert(rust@.watches =~= table()[0].watches);
        assert(yarn@.watches =~= table()[1].watches);
        assert(node_js@.watches =~= table()[2].watches);
        assert(ruby@.watches =~= table()[3].watches);
        assert(crystal@.watches =~= table()[4].watches);
    }
    let r = vec![rust, yarn, node_js, ruby, crystal];
    proof {
        assert(views(r@) =~= table());
    }
    r
}

/// The profile of the project whose directory holds the regular files
/// `files`: the first known profile that matches, if any does.
pub fn detect(files: &Vec<String>) -> (r: Option<Lang>)
    ensures
        match r {
            Some(lang) => spec_detect(table(), files@) == Some(lang@),
            None => spec_detect(table(), files@) is None,
        },
{
    let mut all = langs();
    let mut i: usize = 0;
    proof {
        assert(table().skip(0) =~= table());
    }
    while i < all.len()
        invariant
            i <= all.len(),
            views(all@) == table(),
            spec_detect(table(), files@) == spec_detect(table().skip(i as int), files@),
        decreases all.len() - i,
    {
        proof {
            assert(table().skip(i as int)[0] == all@[i as int]@);
            assert(table().skip(i as int).drop_first() =~= table().skip(i + 1));
        }
        if all[i].is_it(files) {
            return Some(all.swap_remove(i));
        }
        i = i + 1;
    }
    None
}

} // verus!
