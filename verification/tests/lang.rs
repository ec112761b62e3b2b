use famo::lang::detect;
use famo::lang::langs;
use famo::lang::same_text;
use famo::lang::Lang;

fn files(names: &[&str]) -> Vec<String> {
    names.iter().map(|n| n.to_string()).collect()
}

#[test]
fn detect_rust() {
    let lang = detect(&files(&["Cargo.toml", "Cargo.lock"])).unwrap();

    assert_eq!(lang.name(), &"rust");
    assert_eq!(lang.watches(), &vec!["Cargo.toml", "Cargo.lock"]);
    assert_eq!(lang.build(), &"target");
    assert_eq!(lang.command(), &"cargo build");
}

#[test]
fn detect_node_js() {
    let lang = detect(&files(&["package.json", "package-lock.json"])).unwrap();

    assert_eq!(lang.name(), &"node_js");
    assert_eq!(lang.watches(), &vec!["package.json", "package-lock.json"]);
    assert_eq!(lang.build(), &"node_modules");
    assert_eq!(lang.command(), &"npm build");
}

#[test]
fn detect_yarn() {
    let lang = detect(&files(&["package.json", "yarn.lock"])).unwrap();

    assert_eq!(lang.name(), &"yarn");
    assert_eq!(lang.watches(), &vec!["package.json", "yarn.lock"]);
    assert_eq!(lang.build(), &"node_modules");
    assert_eq!(lang.command(), &"yarn build");
}

#[test]
fn detect_ruby() {
    let lang = detect(&files(&["Gemfile", "Gemfile.lock"])).unwrap();

    assert_eq!(lang.name(), &"ruby");
    assert_eq!(lang.watches(), &vec!["Gemfile", "Gemfile.lock"]);
    assert_eq!(lang.build(), &"vendor");
    assert_eq!(lang.command(), &"bundle install --path vendor/bundle");
}

#[test]
fn detect_none() {
    let lang = detect(&files(&[]));

    assert!(lang.is_none());
}

#[test]
fn detect_crystal() {
    let lang = detect(&files(&["README.md", "shard.lock", "shard.yaml"])).unwrap();

    assert_eq!(lang.name(), &"crystal");
    assert_eq!(lang.build(), &"lib");
    assert_eq!(lang.command(), &"shards build");
}

#[test]
fn detect_needs_every_marker_file() {
    assert!(detect(&files(&["Cargo.toml"])).is_none());
    assert!(detect(&files(&["package.json", "Gemfile"])).is_none());
}

#[test]
fn detect_takes_the_first_profile_that_matches() {
    let all = files(&["package.json", "package-lock.json", "yarn.lock", "Gemfile", "Gemfile.lock"]);
    assert_eq!(detect(&all).unwrap().name(), &"yarn");
}

#[test]
fn langs_lists_the_profiles_in_order() {
    let names: Vec<&str> = langs().iter().map(|l| *l.name()).collect();
    assert_eq!(names, vec!["rust", "yarn", "node_js", "ruby", "crystal"]);
}

#[test]
fn is_it_looks_for_each_marker_file() {
    let lang = Lang::new("make", vec!["Makefile"], "out", "make");
    assert!(lang.is_it(&files(&["a.c", "Makefile"])));
    assert!(!lang.is_it(&files(&["a.c", "makefile"])));
    assert!(Lang::new("any", vec![], "out", "true").is_it(&files(&[])));
}

#[test]
fn same_text_compares_whole_strings() {
    assert!(same_text("yarn.lock", "yarn.lock"));
    assert!(!same_text("yarn.lock", "yarn.lockx"));
    assert!(!same_text("yarn.lock", "yarn.lick"));
    assert!(same_text("", ""));
}
