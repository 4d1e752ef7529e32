use classgate::config::{Config, IniItem};

fn property(key: &str, value: Option<&str>) -> IniItem {
    IniItem::Property(key.to_string(), value.map(|v| v.to_string()))
}

#[test]
fn reads_both_sections() {
    let text = "[JAR]\njar_path=app/demo.jar\nmain_args=--port 8080\n\n[JVM]\n;where java lives\njava_home=/opt/jdk\njvm_args=-Xmx1g -Xss1m\n";
    let config = Config::parse(text);
    assert_eq!(config.jar_path, "app/demo.jar");
    assert_eq!(config.main_args, "--port 8080");
    assert_eq!(config.java_home, "/opt/jdk");
    assert_eq!(config.jvm_args, "-Xmx1g -Xss1m");
}

#[test]
fn missing_values_are_empty() {
    let config = Config::parse("[JAR]\njar_path=a.jar\n");
    assert_eq!(config.jar_path, "a.jar");
    assert_eq!(config.main_args, "");
    assert_eq!(config.java_home, "");
    assert_eq!(config.jvm_args, "");
    let config = Config::parse("");
    assert_eq!(config.jar_path, "");
}

#[test]
fn keys_count_only_in_their_section() {
    let config = Config::parse("jar_path=top.jar\n[JVM]\njar_path=wrong.jar\n[JAR]\njava_home=/wrong\n");
    assert_eq!(config.jar_path, "");
    assert_eq!(config.java_home, "");
}

#[test]
fn names_are_not_trimmed() {
    let config = Config::parse("[JAR]\njar_path = a.jar\n[ JVM ]\njava_home=/opt\n");
    assert_eq!(config.jar_path, "");
    assert_eq!(config.java_home, "");
    let config = Config::parse("[JAR]\njar_path= a.jar\r\n");
    assert_eq!(config.jar_path, " a.jar");
}

#[test]
fn later_value_replaces_earlier() {
    let config = Config::parse("[JAR]\njar_path=a.jar\n[JVM]\njvm_args=-Xmx1g\n[JAR]\njar_path=b.jar\n");
    assert_eq!(config.jar_path, "b.jar");
    assert_eq!(config.jvm_args, "-Xmx1g");
}

#[test]
fn key_without_value_changes_nothing() {
    let config = Config::parse("[JAR]\njar_path=a.jar\njar_path\n");
    assert_eq!(config.jar_path, "a.jar");
    let config = Config::parse("[JAR]\njar_path=\n");
    assert_eq!(config.jar_path, "");
}

#[test]
fn load_reads_what_parse_reads() {
    let text = "[JVM]\njava_home=/opt/jdk\n";
    let config = Config::load(text).unwrap();
    assert_eq!(config.java_home, "/opt/jdk");
    assert_eq!(config.jar_path, "");
}

#[test]
fn items_fold_into_a_config() {
    let items = vec![
        IniItem::SectionEnd,
        property("jvm_args", Some("-early")),
        IniItem::Section("JVM".to_string()),
        IniItem::Comment("note".to_string()),
        property("jvm_args", Some("-Xmx2g")),
        property("java_home", None),
        IniItem::Blank,
        IniItem::SectionEnd,
        IniItem::Error("[JAR".to_string()),
        property("java_home", Some("/opt/jdk")),
        IniItem::Section("JAR".to_string()),
        property("main_args", Some("a b")),
        property("unknown", Some("x")),
        IniItem::SectionEnd,
    ];
    let config = Config::from_items(&items);
    assert_eq!(config.jar_path, "");
    assert_eq!(config.main_args, "a b");
    assert_eq!(config.java_home, "/opt/jdk");
    assert_eq!(config.jvm_args, "-Xmx2g");
}

#[test]
fn no_items_give_the_empty_config() {
    let config = Config::from_items(&[]);
    assert_eq!(config.jar_path, "");
    assert_eq!(config.main_args, "");
    assert_eq!(config.java_home, "");
    assert_eq!(config.jvm_args, "");
}

#[test]
fn config_shows_itself() {
    let config = Config {
        jar_path: "a.jar".to_string(),
        main_args: "x y".to_string(),
        java_home: "/opt/jdk".to_string(),
        jvm_args: "-Xmx1g".to_string(),
    };
    assert_eq!(
        config.to_string(),
        "{\n jar_path: a.jar,\n main_args: x y,\n jvm_args: -Xmx1g,\n }"
    );
}
