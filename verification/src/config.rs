//! The launcher's configuration, read from INI text.
use vstd::prelude::*;
use vstd::string::StringExecFns;
use crate::text::same_text;

verus! {

/// One item of an INI document, in the reader's own terms.
#[derive(Clone, Debug)]
pub enum IniItem {
    /// A line that opens like a section header and does not close like one.
    Error(String),
    /// A section header, by the name between the brackets.
    Section(String),
    /// The end of a section, or of the document.
    SectionEnd,
    /// A key, with its value where the line holds a `=`.
    Property(String, Option<String>),
    /// A comment, without the character that opens it.
    Comment(String),
    /// An empty line.
    Blank,
}

/// An `IniItem` as contracts see it.
pub ghost enum IniItemView {
    Error(Seq<char>),
    Section(Seq<char>),
    SectionEnd,
    Property(Seq<char>, Option<Seq<char>>),
    Comment(Seq<char>),
    Blank,
}

impl View for IniItem {
    type V = IniItemView;

    open spec fn view(&self) -> IniItemView {
        match self {
            IniItem::Error(s) => IniItemView::Error(s@),
            IniItem::Section(s) => IniItemView::Section(s@),
            IniItem::SectionEnd => IniItemView::SectionEnd,
            IniItem::Property(k, v) => IniItemView::Property(
                k@,
                match v {
                    Some(s) => Some(s@),
                    None => None,
                },
            ),
            IniItem::Comment(s) => IniItemView::Comment(s@),
            IniItem::Blank => IniItemView::Blank,
        }
    }
}

/// `ini_core::Parser`: a reader part-way through a text. What it has yet
/// to yield is spoken of through `pending_items` alone.
#[verifier::external_type_specification]
#[verifier::external_body]
pub struct ExParser<'a>(ini_core::Parser<'a>);

/// The items that the INI reader finds in a text, in order.
pub uninterp spec fn ini_items(text: Seq<char>) -> Seq<IniItemView>;

/// The items that a reader has yet to yield.
pub uninterp spec fn pending_items(parser: ini_core::Parser<'_>) -> Seq<IniItemView>;

/// `ini_core::Parser::new`: a reader at the start of the text, with the
/// default settings. The contract names what it will yield: that depends
/// on the text alone. The reader counts lines in 32 bits, so the text may
/// not hold more characters than that.
#[verifier::external_body]
fn new_parser<'a>(text: &'a str) -> (parser: ini_core::Parser<'a>)
    requires
        text@.len() <= u32::MAX,
    ensures
        pending_items(parser) == ini_items(text@),
{
    ini_core::Parser::new(text)
}

/// `next` of `ini_core::Parser`: the first of the pending items, which is
/// then no longer pending, or `None` when none is left.
#[verifier::external_body]
fn next_item(parser: &mut ini_core::Parser<'_>) -> (r: Option<IniItem>)
    ensures
        match r {
            Some(item) => pending_items(*old(parser)).len() > 0 && item@ == pending_items(
                *old(parser),
            )[0] && pending_items(*final(parser)) == pending_items(*old(parser)).skip(1),
            None => pending_items(*old(parser)).len() == 0 && pending_items(*final(parser))
                == pending_items(*old(parser)),
        },
{
    Some(match parser.next()? {
        ini_core::Item::Error(s) => IniItem::Error(s.to_owned()),
        ini_core::Item::Section(s) => IniItem::Section(s.to_owned()),
        ini_core::Item::SectionEnd => IniItem::SectionEnd,
        ini_core::Item::Property(k, v) => IniItem::Property(k.to_owned(), v.map(str::to_owned)),
        ini_core::Item::Comment(s) => IniItem::Comment(s.to_owned()),
        ini_core::Item::Blank => IniItem::Blank,
    })
}

/// The views of items.
pub open spec fn item_views(items: Seq<IniItem>) -> Seq<IniItemView> {
    items.map_values(|item: IniItem| item@)
}

/// All the items of a text, in order.
pub fn read_items(text: &str) -> (items: Vec<IniItem>)
    requires
        text@.len() <= u32::MAX,
    ensures
        item_views(items@) == ini_items(text@),
{
    let mut parser = new_parser(text);
    let mut items: Vec<IniItem> = Vec::new();
    assert(item_views(items@) + pending_items(parser) =~= ini_items(text@));
    loop
        invariant
            item_views(items@) + pending_items(parser) == ini_items(text@),
        ensures
            item_views(items@) == ini_items(text@),
        decreases pending_items(parser).len(),
    {
        let ghost before = item_views(items@);
        let ghost pending = pending_items(parser);
        match next_item(&mut parser) {
            Some(item) => {
                items.push(item);
                assert(item_views(items@) =~= before.push(pending[0]));
                assert(before.push(pending[0]) + pending.skip(1) =~= before + pending);
            },
            None => {
                assert(before + pending =~= before);
                break ;
            },
        }
    }
    items
}

/// What the launcher needs to know: the application to run and the
/// virtual machine to run it in.
#[derive(Clone, Debug, Default)]
pub struct Config {
    pub jar_path: String,
    pub main_args: String,
    pub java_home: String,
    pub jvm_args: String,
}

/// A `Config` as contracts see it.
pub ghost struct ConfigView {
    pub jar_path: Seq<char>,
    pub main_args: Seq<char>,
    pub java_home: Seq<char>,
    pub jvm_args: Seq<char>,
}

impl View for Config {
    type V = ConfigView;

    open spec fn view(&self) -> ConfigView {
        ConfigView {
            jar_path: self.jar_path@,
            main_args: self.main_args@,
            java_home: self.java_home@,
            jvm_args: self.jvm_args@,
        }
    }
}

/// The section that is open after the items: the name of the last header
/// among them, or the empty name before any header.
pub open spec fn current_section(items: Seq<IniItemView>) -> Seq<char>
    decreases items.len(),
{
    if items.len() == 0 {
        Seq::empty()
    } else {
        match items.last() {
            IniItemView::Section(name) => name,
            _ => current_section(items.drop_last()),
        }
    }
}

/// The value of `key` in `section`: that of the last property of that key
/// in that section which has a value.
pub open spec fn property_value(
    items: Seq<IniItemView>,
    section: Seq<char>,
    key: Seq<char>,
) -> Option<Seq<char>>
    decreases items.len(),
{
    if items.len() == 0 {
        None
    } else {
        match items.last() {
            IniItemView::Property(k, Some(v)) => if k == key && current_section(
                items.drop_last(),
            ) == section {
                Some(v)
            } else {
                property_value(items.drop_last(), section, key)
            },
            _ => property_value(items.drop_last(), section, key),
        }
    }
}

/// A value, or the empty text where there is none.
pub open spec fn or_empty(value: Option<Seq<char>>) -> Seq<char> {
    match value {
        Some(v) => v,
        None => Seq::empty(),
    }
}

/// The configuration that a document's items give: `jar_path` and
/// `main_args` from section `JAR`, `java_home` and `jvm_args` from section
/// `JVM`, each empty where the document gives it no value.
pub open spec fn config_spec(items: Seq<IniItemView>) -> ConfigView {
    ConfigView {
        jar_path: or_empty(property_value(items, "JAR"@, "jar_path"@)),
        main_args: or_empty(property_value(items, "JAR"@, "main_args"@)),
        java_home: or_empty(property_value(items, "JVM"@, "java_home"@)),
        jvm_args: or_empty(property_value(items, "JVM"@, "jvm_args"@)),
    }
}

/// How the configuration shows itself: the application's path and
/// arguments and the virtual machine's arguments, one to a line.
pub open spec fn config_text(c: ConfigView) -> Seq<char> {
    "{\n jar_path: "@ + c.jar_path + ",\n main_args: "@ + c.main_args + ",\n jvm_args: "@
        + c.jvm_args + ",\n }"@
}

/// The two section names differ, and so do the keys within each section.
proof fn lemma_names_differ()
    ensures
        "JAR"@ != "JVM"@,
        "jar_path"@ != "main_args"@,
        "java_home"@ != "jvm_args"@,
{
    reveal_strlit("JAR");
    reveal_strlit("JVM");
    reveal_strlit("jar_path");
    reveal_strlit("main_args");
    reveal_strlit("java_home");
    reveal_strlit("jvm_args");
    assert("JAR"@[1] != "JVM"@[1]);
    assert("jar_path"@.len() != "main_args"@.len());
    assert("java_home"@.len() != "jvm_args"@.len());
}

impl Config {
    /// The configuration that the items of a document give.
    pub fn from_items(items: &[IniItem]) -> (config: Config)
        ensures
            config@ == config_spec(item_views(items@)),
    {
        let ghost views = item_views(items@);
        let mut section = String::new();
        let mut config = Config {
            jar_path: String::new(),
            main_args: String::new(),
            java_home: String::new(),
            jvm_args: String::new(),
        };
        let mut i: usize = 0;
        assert(views.take(0) =~= Seq::<IniItemView>::empty());
        while i < items.len()
            invariant
                i <= items.len(),
                views == item_views(items@),
                section@ == current_section(views.take(i as int)),
                config@ == config_spec(views.take(i as int)),
            decreases items.len() - i,
        {
            proof {
                let next = views.take(i + 1);
                assert(next.drop_last() =~= views.take(i as int));
                assert(next.last() == items@[i as int]@);
                lemma_names_differ();
            }
            match &items[i] {
                IniItem::Section(name) => {
                    section = name.clone();
                },
                IniItem::Property(key, Some(value)) => {
                    if same_text(section.as_str(), "JAR") {
                        if same_text(key.as_str(), "jar_path") {
                            config.jar_path = value.clone();
                        } else if same_text(key.as_str(), "main_args") {
                            config.main_args = value.clone();
                        }
                    } else if same_text(section.as_str(), "JVM") {
                        if same_text(key.as_str(), "java_home") {
                            config.java_home = value.clone();
                        } else if same_text(key.as_str(), "jvm_args") {
                            config.jvm_args = value.clone();
                        }
                    }
                },
                _ => {},
            }
            i += 1;
        }
        assert(views.take(i as int) =~= views);
        config
    }

    /// Reads the configuration from INI text.
    pub fn parse(text: &str) -> (config: Config)
        requires
            text@.len() <= u32::MAX,
        ensures
            config@ == config_spec(ini_items(text@)),
    {
        let items = read_items(text);
        Config::from_items(items.as_slice())
    }

    /// Reads the configuration from INI text of any length: `None` for a
    /// text beyond what the reader takes.
    pub fn load(text: &str) -> (r: Option<Config>)
        ensures
            match r {
                Some(config) => text@.len() <= u32::MAX && config@ == config_spec(
                    ini_items(text@),
                ),
                None => text@.len() > u32::MAX,
            },
    {
        if text.unicode_len() > 0xffff_ffff {
            None
        } else {
            Some(Config::parse(text))
        }
    }

    /// The configuration as text.
    pub fn to_string(&self) -> (s: String)
        ensures
            s@ == config_text(self@),
    {
        let mut s = String::from_str("{\n jar_path: ");
        s.append(self.jar_path.as_str());
        s.append(",\n main_args: ");
        s.append(self.main_args.as_str());
        s.append(",\n jvm_args: ");
        s.append(self.jvm_args.as_str());
        s.append(",\n }");
        s
    }
}

} // verus!
