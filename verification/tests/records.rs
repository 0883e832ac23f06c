use doomstack::{Description, Doom, Entry, Location};

struct Oupsie {
    details: String,
}

impl Doom for Oupsie {
    fn tag(&self) -> &'static str {
        "Oupsie"
    }

    fn description(&self) -> Description {
        Description::Owned(format!("Made a mess: {}", self.details))
    }

    fn keep_original() -> bool {
        true
    }
}

struct Plain;

impl Doom for Plain {
    fn tag(&self) -> &'static str {
        "Plain"
    }

    fn description(&self) -> Description {
        Description::Static("Nothing to add")
    }
}

struct Other;

fn oupsie() -> Oupsie {
    Oupsie { details: "got distracted".to_string() }
}

fn send_and_sync<T: Send + Sync>(_value: &T) {}

#[test]
fn description_as_str_of_owned_text() {
    let description = Description::Owned("Oupsie!".to_owned());
    assert_eq!("Oupsie!", description.as_str());
}

#[test]
fn description_as_str_of_static_text() {
    let description = Description::Static("Made a mess");
    assert_eq!("Made a mess", description.as_str());
}

#[test]
fn description_as_str_of_empty_text() {
    assert_eq!("", Description::Static("").as_str());
    assert_eq!("", Description::Owned(String::new()).as_str());
}

#[test]
fn description_from_static_text_is_static() {
    let description = Description::from("known beforehand");
    assert!(matches!(description, Description::Static("known beforehand")));
}

#[test]
fn description_from_string_is_owned() {
    let description = Description::from(format!("computed {}", 3));
    match description {
        Description::Owned(text) => assert_eq!(text, "computed 3"),
        Description::Static(_) => panic!("an owned string became static text"),
    }
}

#[test]
fn description_into_from_both_kinds() {
    let fixed: Description = "fixed".into();
    let built: Description = String::from("built").into();
    assert_eq!(fixed.as_str(), "fixed");
    assert_eq!(built.as_str(), "built");
}

#[test]
fn description_renders_verbatim() {
    assert_eq!(Description::Static("say \"hi\"").render(), "say \"hi\"");
    assert_eq!(Description::Owned("tab\there".to_owned()).render(), "tab\there");
}

#[test]
fn description_debug_rendering_is_quoted() {
    assert_eq!(Description::Static("Oupsie!").render_debug(), "\"Oupsie!\"");
    assert_eq!(Description::Owned("Oupsie!".to_owned()).render_debug(), "\"Oupsie!\"");
}

#[test]
fn description_debug_rendering_escapes() {
    let description = Description::Static("say \"hi\"\n");
    assert_eq!(description.render_debug(), "\"say \\\"hi\\\"\\n\"");
    assert_eq!(description.render_debug(), format!("{:?}", "say \"hi\"\n"));
}

#[test]
fn description_clone_holds_the_same_text() {
    let fixed = Description::Static("fixed");
    let built = Description::Owned("built".to_owned());
    assert!(matches!(fixed.clone(), Description::Static("fixed")));
    match built.clone() {
        Description::Owned(text) => assert_eq!(text, "built"),
        Description::Static(_) => panic!("the clone of owned text is static"),
    }
    assert_eq!(built.as_str(), "built");
}

#[test]
fn location_equal_when_file_and_line_match() {
    let file = String::from("src/lib.rs");
    let leaked: &'static str = Box::leak(file.into_boxed_str());
    let one = Location { file: "src/lib.rs", line: 12 };
    let two = Location { file: leaked, line: 12 };
    assert!(one == two);
    assert!(two == one);
    assert!(one == one);
}

#[test]
fn location_differs_by_line() {
    let one = Location { file: "src/lib.rs", line: 12 };
    let two = Location { file: "src/lib.rs", line: 13 };
    assert!(one != two);
}

#[test]
fn location_differs_by_file() {
    let one = Location { file: "src/lib.rs", line: 12 };
    let two = Location { file: "src/lib.r", line: 12 };
    let three = Location { file: "", line: 12 };
    assert!(one != two);
    assert!(one != three);
}

#[test]
fn location_is_copied() {
    let one = Location { file: "src/lib.rs", line: 12 };
    let two = one;
    let three = one.clone();
    assert!(one == two);
    assert!(one == three);
    assert_eq!(two.file, "src/lib.rs");
    assert_eq!(three.line, 12);
}

#[test]
fn location_renders_file_colon_line() {
    assert_eq!(Location { file: "src/main.rs", line: 42 }.render(), "src/main.rs:42");
}

#[test]
fn location_renders_lines_in_decimal() {
    assert_eq!(Location { file: "f", line: 0 }.render(), "f:0");
    assert_eq!(Location { file: "f", line: 7 }.render(), "f:7");
    assert_eq!(Location { file: "f", line: 9 }.render(), "f:9");
    assert_eq!(Location { file: "f", line: 10 }.render(), "f:10");
    assert_eq!(Location { file: "f", line: 99 }.render(), "f:99");
    assert_eq!(Location { file: "f", line: 100 }.render(), "f:100");
    assert_eq!(Location { file: "f", line: 1234567890 }.render(), "f:1234567890");
    assert_eq!(Location { file: "f", line: u32::MAX }.render(), "f:4294967295");
}

#[test]
fn location_renders_an_empty_file_name() {
    assert_eq!(Location { file: "", line: 1 }.render(), ":1");
}

#[test]
fn location_renders_as_std_formats_it() {
    for line in [0u32, 5, 10, 101, 65535, 65536, 999999999, 1000000000, u32::MAX] {
        let location = Location { file: "a/b.rs", line };
        assert_eq!(location.render(), format!("{}:{}", "a/b.rs", line));
    }
}

#[test]
fn archive_takes_down_tag_and_description() {
    let entry = Entry::archive(oupsie());
    assert_eq!(entry.tag(), "Oupsie");
    assert_eq!(entry.description(), "Made a mess: got distracted");
}

#[test]
fn archive_leaves_the_location_unset() {
    assert!(Entry::archive(oupsie()).location().is_none());
    assert!(Entry::archive(Plain).location().is_none());
}

#[test]
fn archive_keeps_the_original_when_asked() {
    let entry = Entry::archive(oupsie());
    let original = entry.original().unwrap();
    let recovered = original.downcast_ref::<Oupsie>().unwrap();
    assert_eq!(&recovered.details, "got distracted");
}

#[test]
fn archive_drops_the_original_by_default() {
    assert!(!Plain::keep_original());
    let entry = Entry::archive(Plain);
    assert!(entry.original().is_none());
    assert_eq!(entry.tag(), "Plain");
    assert_eq!(entry.description(), "Nothing to add");
}

#[test]
fn original_of_another_type_is_not_found() {
    let entry = Entry::archive(oupsie());
    let original = entry.original().unwrap();
    assert!(original.downcast_ref::<Plain>().is_none());
    assert!(original.downcast_ref::<Other>().is_none());
    assert!(original.downcast_ref::<String>().is_none());
    assert!(original.downcast_ref::<Oupsie>().is_some());
}

#[test]
fn original_is_found_again_and_again() {
    let entry = Entry::archive(oupsie());
    let original = entry.original().unwrap();
    let once = original.downcast_ref::<Oupsie>().unwrap();
    let twice = original.downcast_ref::<Oupsie>().unwrap();
    assert!(std::ptr::eq(once, twice));
}

#[test]
fn original_clone_shares_the_error() {
    let entry = Entry::archive(oupsie());
    let original = entry.original().unwrap();
    let copy = original.clone();
    let from_original = original.downcast_ref::<Oupsie>().unwrap();
    let from_copy = copy.downcast_ref::<Oupsie>().unwrap();
    assert!(std::ptr::eq(from_original, from_copy));
    assert_eq!(&from_copy.details, "got distracted");
}

#[test]
fn original_outlives_its_entry() {
    let copy = {
        let entry = Entry::archive(oupsie());
        entry.original().unwrap().clone()
    };
    assert_eq!(&copy.downcast_ref::<Oupsie>().unwrap().details, "got distracted");
}

#[test]
fn from_parts_keeps_when_told() {
    let entry = Entry::from_parts("Tag", Description::Static("text"), true, 42u32);
    assert_eq!(entry.tag(), "Tag");
    assert_eq!(entry.description(), "text");
    assert!(entry.location().is_none());
    assert_eq!(entry.original().unwrap().downcast_ref::<u32>(), Some(&42));
}

#[test]
fn from_parts_lets_go_when_told() {
    let entry = Entry::from_parts("Tag", Description::Owned("text".to_owned()), false, 42u32);
    assert_eq!(entry.tag(), "Tag");
    assert_eq!(entry.description(), "text");
    assert!(entry.location().is_none());
    assert!(entry.original().is_none());
}

#[test]
fn spot_sets_the_location() {
    let mut entry = Entry::archive(oupsie());
    let here = Location { file: "src/garden.rs", line: 9 };
    entry.spot(here);
    assert!(entry.location() == Some(here));
    assert_eq!(entry.tag(), "Oupsie");
    assert_eq!(entry.description(), "Made a mess: got distracted");
    assert!(entry.original().unwrap().downcast_ref::<Oupsie>().is_some());
}

#[test]
fn spot_again_overwrites() {
    let mut entry = Entry::archive(Plain);
    let first = Location { file: "src/garden.rs", line: 9 };
    let second = Location { file: "src/shed.rs", line: 31 };
    entry.spot(first);
    entry.spot(second);
    assert!(entry.location() == Some(second));
    entry.spot(second);
    assert!(entry.location() == Some(second));
    entry.spot(first);
    assert!(entry.location() == Some(first));
}

#[test]
fn entry_renders_its_tag() {
    assert_eq!(Entry::archive(oupsie()).render(), "Oupsie");
    let mut entry = Entry::archive(Plain);
    entry.spot(Location { file: "f.rs", line: 1 });
    assert_eq!(entry.render(), "Plain");
}

#[test]
fn entry_debug_rendering_without_location() {
    assert_eq!(Entry::archive(Plain).render_debug(), "[Plain] Nothing to add");
}

#[test]
fn entry_debug_rendering_with_location() {
    let mut entry = Entry::archive(oupsie());
    entry.spot(Location { file: "src/garden.rs", line: 1024 });
    assert_eq!(
        entry.render_debug(),
        "[Oupsie @ src/garden.rs:1024] Made a mess: got distracted"
    );
}

#[test]
fn entry_clone_holds_the_same() {
    let mut entry = Entry::archive(oupsie());
    let here = Location { file: "src/garden.rs", line: 9 };
    entry.spot(here);
    let copy = entry.clone();
    assert_eq!(copy.tag(), "Oupsie");
    assert_eq!(copy.description(), "Made a mess: got distracted");
    assert!(copy.location() == Some(here));
    let kept = entry.original().unwrap().downcast_ref::<Oupsie>().unwrap();
    let shared = copy.original().unwrap().downcast_ref::<Oupsie>().unwrap();
    assert!(std::ptr::eq(kept, shared));
}

#[test]
fn entry_clone_is_spotted_on_its_own() {
    let mut entry = Entry::archive(Plain);
    let mut copy = entry.clone();
    copy.spot(Location { file: "copy.rs", line: 2 });
    assert!(entry.location().is_none());
    entry.spot(Location { file: "entry.rs", line: 3 });
    assert!(copy.location() == Some(Location { file: "copy.rs", line: 2 }));
    assert!(copy.original().is_none());
}

#[test]
fn records_cross_threads() {
    let entry = Entry::archive(oupsie());
    send_and_sync(&entry);
    send_and_sync(entry.original().unwrap());
    send_and_sync(&Location { file: "f", line: 1 });
    send_and_sync(&Description::Static("text"));
}

struct Accented;

impl Doom for Accented {
    fn tag(&self) -> &'static str {
        "Défaut"
    }

    fn description(&self) -> Description {
        Description::Static("naïve café — 東京")
    }
}

#[test]
fn text_beyond_ascii_is_kept_as_it_is() {
    let mut entry = Entry::archive(Accented);
    assert_eq!(entry.tag(), "Défaut");
    assert_eq!(entry.description(), "naïve café — 東京");
    assert_eq!(entry.render(), "Défaut");
    assert_eq!(entry.render_debug(), "[Défaut] naïve café — 東京");
    entry.spot(Location { file: "src/été.rs", line: 30 });
    assert_eq!(entry.render_debug(), "[Défaut @ src/été.rs:30] naïve café — 東京");
    assert_eq!(Description::Static("東京").render_debug(), "\"東京\"");
}
