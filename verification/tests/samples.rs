use deluge::samples::{read_sample_paths, SamplePathReplacer};
use deluge::values::sample_path::SamplePath;
use deluge::xml_tree::load_xml;
use deluge::sound::Sound;
use deluge::values::sample_position::SamplePosition;
use deluge::sound::subtractive::{Sample, SampleRange, SampleZone, SubtractiveOscillator};
use deluge::values::{FineTranspose, Transpose};

const KIT030: &str = r#"<?xml version="1.0" encoding="UTF-8"?>
<kit>
  <soundSources>
    <sound>
      <name>BD</name>
      <osc1>
        <type>sample</type>
        <fileName>SAMPLES/ARTISTS/CHAZ/CB4-Cassette808_BD02.wav</fileName>
      </osc1>
      <osc2>
        <type>sample</type>
        <fileName>SAMPLES/ARTISTS/CHAZ/CB5-Cassette808_BD03.wav</fileName>
      </osc2>
    </sound>
    <sound>
      <name>BD2</name>
      <osc1>
        <type>sample</type>
        <fileName>SAMPLES/ARTISTS/CHAZ/CB1-BD~1.WAV</fileName>
      </osc1>
      <osc2>
        <type>sample</type>
        <fileName>SAMPLES/ARTISTS/CHAZ/CB2-BD~1.WAV</fileName>
      </osc2>
    </sound>
    <sound>
      <name>RIM</name>
      <osc1>
        <type>sample</type>
        <fileName>SAMPLES/ARTISTS/CHAZ/CB7-Cassette808_Rim_01.wav</fileName>
      </osc1>
      <osc2>
        <type>sample</type>
        <fileName>SAMPLES/ARTISTS/CHAZ/CB6-Cassette808_CP_01.wav</fileName>
      </osc2>
    </sound>
    <sound>
      <name>BELL</name>
      <osc1>
        <type>sample</type>
        <fileName>SAMPLES/ARTISTS/CHAZ/CB3-BELL.WAV</fileName>
      </osc1>
      <osc2>
        <type>sample</type>
        <fileName>SAMPLES/ARTISTS/CHAZ/CB8-yo.wav</fileName>
      </osc2>
    </sound>
  </soundSources>
</kit>
"#;

const ORIGINALS: [&str; 8] = [
    "SAMPLES/ARTISTS/CHAZ/CB4-Cassette808_BD02.wav",
    "SAMPLES/ARTISTS/CHAZ/CB5-Cassette808_BD03.wav",
    "SAMPLES/ARTISTS/CHAZ/CB1-BD~1.WAV",
    "SAMPLES/ARTISTS/CHAZ/CB2-BD~1.WAV",
    "SAMPLES/ARTISTS/CHAZ/CB7-Cassette808_Rim_01.wav",
    "SAMPLES/ARTISTS/CHAZ/CB6-Cassette808_CP_01.wav",
    "SAMPLES/ARTISTS/CHAZ/CB3-BELL.WAV",
    "SAMPLES/ARTISTS/CHAZ/CB8-yo.wav",
];

#[test]
fn test_kit30() {
    let paths: Vec<SamplePath> = read_sample_paths(KIT030.as_bytes());

    assert_eq!(8, paths.len());
    assert_eq!(SamplePath::new("SAMPLES/ARTISTS/CHAZ/CB4-Cassette808_BD02.wav").unwrap(), paths[0]);
    assert_eq!(SamplePath::new("SAMPLES/ARTISTS/CHAZ/CB5-Cassette808_BD03.wav").unwrap(), paths[1]);
    assert_eq!(SamplePath::new("SAMPLES/ARTISTS/CHAZ/CB1-BD~1.WAV").unwrap(), paths[2]);
    assert_eq!(SamplePath::new("SAMPLES/ARTISTS/CHAZ/CB2-BD~1.WAV").unwrap(), paths[3]);
    assert_eq!(SamplePath::new("SAMPLES/ARTISTS/CHAZ/CB7-Cassette808_Rim_01.wav").unwrap(), paths[4]);
    assert_eq!(SamplePath::new("SAMPLES/ARTISTS/CHAZ/CB6-Cassette808_CP_01.wav").unwrap(), paths[5]);
    assert_eq!(SamplePath::new("SAMPLES/ARTISTS/CHAZ/CB3-BELL.WAV").unwrap(), paths[6]);
    assert_eq!(SamplePath::new("SAMPLES/ARTISTS/CHAZ/CB8-yo.wav").unwrap(), paths[7]);
}

#[test]
fn test_no_replacements() {
    let transformer = SamplePathReplacer::default();
    let buffer = transformer.rewrite(KIT030.as_bytes()).unwrap();

    let original_xml = load_xml(KIT030).unwrap();
    let transformed_xml = load_xml(&String::from_utf8(buffer).unwrap()).unwrap();

    assert_eq!(original_xml, transformed_xml);
}

#[test]
fn test_replacements() {
    let mut transformer = SamplePathReplacer::default();
    for original in ORIGINALS.iter() {
        let replacement = match original.rfind('.') {
            Some(dot) => format!("{}_YO{}", &original[..dot], &original[dot..]),
            None => panic!("a path with an extension was expected"),
        };
        transformer.set_replacement(SamplePath::new(original).unwrap(), SamplePath::new(&replacement).unwrap());
    }

    let buffer = transformer.rewrite(KIT030.as_bytes()).unwrap();
    let paths = read_sample_paths(buffer.as_slice());

    assert_eq!(8, paths.len());
    assert_eq!(SamplePath::new("SAMPLES/ARTISTS/CHAZ/CB4-Cassette808_BD02_YO.wav").unwrap(), paths[0]);
    assert_eq!(SamplePath::new("SAMPLES/ARTISTS/CHAZ/CB5-Cassette808_BD03_YO.wav").unwrap(), paths[1]);
    assert_eq!(SamplePath::new("SAMPLES/ARTISTS/CHAZ/CB1-BD~1_YO.WAV").unwrap(), paths[2]);
    assert_eq!(SamplePath::new("SAMPLES/ARTISTS/CHAZ/CB2-BD~1_YO.WAV").unwrap(), paths[3]);
    assert_eq!(SamplePath::new("SAMPLES/ARTISTS/CHAZ/CB7-Cassette808_Rim_01_YO.wav").unwrap(), paths[4]);
    assert_eq!(SamplePath::new("SAMPLES/ARTISTS/CHAZ/CB6-Cassette808_CP_01_YO.wav").unwrap(), paths[5]);
    assert_eq!(SamplePath::new("SAMPLES/ARTISTS/CHAZ/CB3-BELL_YO.WAV").unwrap(), paths[6]);
    assert_eq!(SamplePath::new("SAMPLES/ARTISTS/CHAZ/CB8-yo_YO.wav").unwrap(), paths[7]);
}

#[test]
fn rewrite_example() {
    let mut replacer = SamplePathReplacer::default();
    let original_xml = b"<example><fileName>Artist/foo.wav</fileName></example>";
    let original = SamplePath::new("Artist/foo.wav").unwrap();
    let replacement = SamplePath::new("Artist/bar.wav").unwrap();

    replacer.set_replacement(original, replacement);

    let result_buffer = replacer.rewrite(original_xml.as_slice()).unwrap();

    assert_eq!(b"<example><fileName>Artist/bar.wav</fileName></example>", result_buffer.as_slice());
}

#[test]
fn later_replacement_wins() {
    let mut replacer = SamplePathReplacer::new();
    let original = SamplePath::new("A.wav").unwrap();
    replacer.set_replacement(original.clone(), SamplePath::new("B.wav").unwrap());
    replacer.set_replacement(original.clone(), SamplePath::new("C.wav").unwrap());

    assert_eq!(Some(&SamplePath::new("C.wav").unwrap()), replacer.get_replacement(&original));
    assert_eq!(None, replacer.get_replacement(&SamplePath::new("D.wav").unwrap()));
}

#[test]
fn reading_stops_at_an_absolute_path() {
    let xml = b"<a><fileName>X.wav</fileName><fileName>/abs.wav</fileName><fileName>Y.wav</fileName></a>";
    let paths = read_sample_paths(xml.as_slice());

    assert_eq!(vec![SamplePath::new("X.wav").unwrap()], paths);
}

#[test]
fn text_outside_file_names_is_ignored() {
    let xml = b"<a><name>X.wav</name><fileName>Y.wav</fileName></a>";
    let paths = read_sample_paths(xml.as_slice());

    assert_eq!(vec![SamplePath::new("Y.wav").unwrap()], paths);
}

#[test]
fn sound_sample_paths_once_each() {
    let sound = Sound::new_sample(SamplePath::new("A.wav").unwrap(), SamplePosition::new(0), SamplePosition::new(10));
    let paths = sound.get_sample_paths();
    assert_eq!(vec![SamplePath::default(), SamplePath::new("A.wav").unwrap()], paths);
    assert!(Sound::default().get_sample_paths().len() <= 1);
}

#[test]
fn replacement_applies_to_the_normalised_path() {
    let mut replacer = SamplePathReplacer::new();
    replacer.set_replacement(SamplePath::new("SAMPLES/x.wav").unwrap(), SamplePath::new("SAMPLES/y.wav").unwrap());
    let xml = b"<a><fileName>SAMPLES//./x.wav</fileName><name>SAMPLES/x.wav</name></a>";

    let rewritten = replacer.rewrite(xml.as_slice()).unwrap();

    assert_eq!(
        b"<a><fileName>SAMPLES/y.wav</fileName><name>SAMPLES/x.wav</name></a>".as_slice(),
        rewritten.as_slice()
    );
}

fn range(path: &str) -> SampleRange {
    SampleRange {
        range_top_note: None,
        transpose: Transpose::new(0),
        fine_transpose: FineTranspose::new(0),
        file_path: SamplePath::new(path).unwrap(),
        zone: SampleZone {
            start: SamplePosition::new(0),
            end: SamplePosition::new(100),
            start_loop: None,
            end_loop: None,
        },
    }
}

#[test]
fn sound_sample_paths_in_path_order() {
    let first = Sample::SampleRanges(vec![range("b.wav"), range("a.wav"), range("a-b.wav"), range("b.wav")]);
    let second = Sample::SampleRanges(vec![range("a/x.wav"), range("../up.wav"), range("./here.wav")]);
    let sound = Sound::new_substractive(SubtractiveOscillator::new_sample(first), SubtractiveOscillator::new_sample(second));

    let paths: Vec<String> = sound.get_sample_paths().iter().map(|p| p.to_string_lossy()).collect();

    assert_eq!(vec!["./here.wav", "../up.wav", "a/x.wav", "a-b.wav", "a.wav", "b.wav"], paths);

    let by_std: Vec<String> = ["b.wav", "a.wav", "a-b.wav", "a/x.wav", "../up.wav", "./here.wav"]
        .iter()
        .map(std::path::PathBuf::from)
        .collect::<std::collections::BTreeSet<_>>()
        .iter()
        .map(|p| p.to_string_lossy().to_string())
        .collect();
    assert_eq!(by_std, paths);
}

#[test]
fn rewrite_refuses_an_unreadable_document() {
    let mut replacer = SamplePathReplacer::new();
    replacer.set_replacement(SamplePath::new("x.wav").unwrap(), SamplePath::new("y.wav").unwrap());

    assert!(replacer.rewrite(b"<a><fileName>x.wav</fileName></b>".as_slice()).is_err());
}

#[test]
fn loaded_attributes_keep_their_order_and_names() {
    let roots = load_xml(r#"<a y="1" x="2"><b z="3"/></a>"#).unwrap();
    assert_eq!(roots.len(), 1);
    let names: Vec<&str> = roots[0].attributes.iter().map(|a| a.name.as_str()).collect();
    assert_eq!(names, vec!["y", "x"]);
    assert!(load_xml(r#"<a x="1" x="2"/>"#).is_err());
}
