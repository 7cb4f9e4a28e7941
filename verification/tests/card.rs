use deluge::card::card_folder::CardFolder;
use deluge::card::patch_name::{parse_custom_patch_name, PatchName};
use deluge::card::patch_type::PatchType;
use deluge::card::{check_required_directories, next_standard_patch_name};
use deluge::error::CardError;

fn names(list: &[&str]) -> Vec<String> {
    list.iter().map(|s| s.to_string()).collect()
}

#[test]
fn test_check_root_directories_all_correct() {
    let entries = names(&["KITS", "SAMPLES", "SYNTHS"]);

    assert_eq!(Ok(()), check_required_directories(&entries));
}

#[test]
fn test_check_root_directories_first_missing() {
    let entries = names(&["PLITS", "SAMPLES", "SYNTHS"]);

    assert_eq!(Err(CardError::MissingRootDirectory("KITS".into())), check_required_directories(&entries));
}

#[test]
fn test_check_root_directories_last_missing() {
    let entries = names(&["KITS", "SAMPLES", "FFYNYNTHS"]);

    assert_eq!(Err(CardError::MissingRootDirectory("SYNTHS".into())), check_required_directories(&entries));
}

#[test]
fn test_get_next_patch_name_max() {
    let entries = names(&["KIT003", "KIT007", "KIT001"]);
    let patch_name = next_standard_patch_name(PatchType::Kit, &entries).unwrap();

    assert_eq!("KIT008", patch_name);
}

#[test]
fn next_patch_name_cases() {
    assert_eq!(Ok("KIT001".to_string()), next_standard_patch_name(PatchType::Kit, &names(&["KIT000"])));
    assert_eq!(Ok("KIT000".to_string()), next_standard_patch_name(PatchType::Kit, &names(&["KIT"])));
    assert_eq!(Ok("KIT000".to_string()), next_standard_patch_name(PatchType::Kit, &names(&["alariabiata"])));
    assert_eq!(Ok("KIT001".to_string()), next_standard_patch_name(PatchType::Kit, &names(&["KIT000A"])));
    assert_eq!(Ok("KIT001".to_string()), next_standard_patch_name(PatchType::Kit, &names(&["KIT000Z"])));
    assert_eq!(Err(CardError::NoMoreStandardName), next_standard_patch_name(PatchType::Kit, &names(&["KIT999"])));
    assert_eq!(Ok("SYNT000".to_string()), next_standard_patch_name(PatchType::Synth, &names(&[])));
}

#[test]
fn patch_name_parsing() {
    assert_eq!(PatchName::Standard { patch_type: PatchType::Kit, number: 0, suffix: None }, PatchName::parse("KIT000"));
    assert_eq!(
        PatchName::Standard { patch_type: PatchType::Synth, number: 123, suffix: Some('V') },
        PatchName::parse("SYNT123V")
    );
    assert_eq!(
        PatchName::Custom { name: "KIKI FLORIDA0101".to_string(), number: None },
        PatchName::parse("KIKI FLORIDA0101")
    );
    assert_eq!(PatchName::Custom { name: "YO".to_string(), number: Some(123) }, PatchName::parse("YO 123"));
    assert_eq!(PatchName::Custom { name: "KIT0000".to_string(), number: None }, PatchName::parse("KIT0000"));
}

#[test]
fn patch_name_writing() {
    assert_eq!("KIT007", PatchName::standard_to_string(PatchType::Kit, 7, None));
    assert_eq!("SYNT123V", PatchName::standard_to_string(PatchType::Synth, 123, Some('V')));
    assert_eq!("YO 123", PatchName::custom_to_string("YO", Some(123)));
    assert_eq!("YO", PatchName::custom_to_string("YO", None));
}

#[test]
fn patch_type_keys() {
    assert_eq!("kit", PatchType::Kit.get_key());
    assert_eq!("sound", PatchType::Synth.get_key());
    assert_eq!("KIT", PatchType::Kit.get_standard_base_name());
    assert_eq!(CardFolder::Synths, PatchType::Synth.get_card_folder());
    assert_eq!("SAMPLES", CardFolder::Samples.directory_name());
}

#[test]
fn next_patch_name_is_not_taken() {
    let entries = names(&["KIT000", "KIT001A", "KIT002", "notes", "SYNT010"]);
    let patch_name = next_standard_patch_name(PatchType::Kit, &entries).unwrap();

    assert_eq!("KIT011", patch_name);
    assert!(!entries.contains(&patch_name));
}

#[test]
fn patch_type_from_base_name_text() {
    assert_eq!(Ok(PatchType::Kit), "KIT".parse::<PatchType>());
    assert_eq!(Ok(PatchType::Synth), "SYNT".parse::<PatchType>());
    assert_eq!(Err(()), "KITS".parse::<PatchType>());
}

#[test]
fn custom_patch_name_parsing() {
    let cases: [(&str, &str, Option<u16>); 5] = [
        ("KITO", "KITO", None),
        ("SYNT 1", "SYNT", Some(1)),
        ("KIT 123", "KIT", Some(123)),
        ("KIT", "KIT", None),
        ("SYNT", "SYNT", None),
    ];
    for (input, name, number) in cases {
        assert_eq!(PatchName::Custom { name: name.to_string(), number }, parse_custom_patch_name(input));
    }
    assert_eq!(
        PatchName::Custom { name: "TOO BIG 70000".to_string(), number: None },
        parse_custom_patch_name("TOO BIG 70000")
    );
}

#[test]
fn patch_name_from_str() {
    let name: PatchName = "SYNT123V".parse().unwrap();
    assert_eq!(PatchName::Standard { patch_type: PatchType::Synth, number: 123, suffix: Some('V') }, name);
    let custom: PatchName = "YO 123".parse().unwrap();
    assert_eq!(PatchName::Custom { name: "YO".to_string(), number: Some(123) }, custom);
}
