use deluge::error::SerializationError;
use deluge::kit::row::{CvGateOutput, CvGateRow, MidiOutput, MidiRow, RowKit};
use deluge::kit::Kit;
use deluge::serialization::documents::{
    deserialize_kit, deserialize_kit_with_version, deserialize_synth, deserialize_synth_with_version, serialize_kit,
    serialize_synth,
};
use deluge::serialization::format_version::{format_of_version, parse_version, FormatVersion};
use deluge::serialization::convert_milliseconds_to_samples;
use deluge::sound::SynthEngine;
use deluge::synth::Synth;
use deluge::values::hexu50::HexU50;
use deluge::values::on_off::OnOff;
use deluge::values::pan::Pan;
use deluge::values::simple_enums::{LfoShape, OscType, Polyphony, SyncLevel, VoicePriority};
use deluge::values::{CvGateChannel, MidiChannel};

const SYNT061: &str = r#"<?xml version="1.0" encoding="UTF-8"?>
<firmwareVersion>2.0.0</firmwareVersion>
<earliestCompatibleFirmware>2.0.0</earliestCompatibleFirmware>
<sound>
  <osc1>
    <type>square</type>
    <transpose>0</transpose>
    <cents>0</cents>
    <retrigPhase>0</retrigPhase>
  </osc1>
  <osc2>
    <type>saw</type>
    <transpose>0</transpose>
    <cents>8</cents>
    <retrigPhase>0</retrigPhase>
    <oscillatorSync>0</oscillatorSync>
  </osc2>
  <polyphonic>poly</polyphonic>
  <clippingAmount>5</clippingAmount>
  <voicePriority>1</voicePriority>
  <lfo1>
    <type>triangle</type>
    <syncLevel>0</syncLevel>
  </lfo1>
  <lfo2>
    <type>triangle</type>
  </lfo2>
  <mode>subtractive</mode>
  <unison>
    <num>3</num>
    <detune>13</detune>
  </unison>
  <compressor>
    <syncLevel>6</syncLevel>
    <attack>327244</attack>
    <release>936</release>
  </compressor>
  <delay>
    <pingPong>1</pingPong>
    <analog>0</analog>
    <syncLevel>6</syncLevel>
  </delay>
  <lpfMode>24dB</lpfMode>
  <modFXType>none</modFXType>
  <defaultParams>
    <arpeggiatorGate>0x00000000</arpeggiatorGate>
    <portamento>0x80000000</portamento>
    <compressorShape>0xDC28F5B2</compressorShape>
    <oscAVolume>0x70A3D6DF</oscAVolume>
    <oscAPulseWidth>0x00000000</oscAPulseWidth>
    <oscBVolume>0x7FFFFFD2</oscBVolume>
    <oscBPulseWidth>0x00000000</oscBPulseWidth>
    <noiseVolume>0x80000000</noiseVolume>
    <volume>0x6C000000</volume>
    <pan>0x00000000</pan>
    <lpfFrequency>0x24000000</lpfFrequency>
    <lpfResonance>0x82000000</lpfResonance>
    <hpfFrequency>0x1C000000</hpfFrequency>
    <hpfResonance>0x80000000</hpfResonance>
    <envelope1>
      <attack>0x12000000</attack>
      <decay>0xF5C28F47</decay>
      <sustain>0x51EB84F9</sustain>
      <release>0xF8000000</release>
    </envelope1>
    <envelope2>
      <attack>0x80000000</attack>
      <decay>0x8C000000</decay>
      <sustain>0xC7AE146E</sustain>
      <release>0x51EB84F9</release>
    </envelope2>
    <lfo1Rate>0x20000000</lfo1Rate>
    <lfo2Rate>0x33333313</lfo2Rate>
    <modFXRate>0x00000000</modFXRate>
    <modFXDepth>0x00000000</modFXDepth>
    <delayRate>0x00000000</delayRate>
    <delayFeedback>0x80000000</delayFeedback>
    <reverbAmount>0x80000000</reverbAmount>
    <arpeggiatorRate>0x00000000</arpeggiatorRate>
    <stutterRate>0x00000000</stutterRate>
    <sampleRateReduction>0x80000000</sampleRateReduction>
    <bitCrush>0x80000000</bitCrush>
    <modFXOffset>0x00000000</modFXOffset>
    <modFXFeedback>0x00000000</modFXFeedback>
    <equalizer>
      <bass>0x00000000</bass>
      <treble>0x00000000</treble>
      <bassFrequency>0x00000000</bassFrequency>
      <trebleFrequency>0x00000000</trebleFrequency>
    </equalizer>
    <patchCables>
      <patchCable>
        <source>velocity</source>
        <destination>volume</destination>
        <amount>0x3FFFFFE8</amount>
      </patchCable>
      <patchCable>
        <source>lfo1</source>
        <destination>pitch</destination>
        <amount>0x03000000</amount>
      </patchCable>
      <patchCable>
        <source>envelope2</source>
        <destination>lpfFrequency</destination>
        <amount>0x251EB844</amount>
      </patchCable>
    </patchCables>
  </defaultParams>
  <modKnobs>
    <modKnob>
      <controlsParam>pan</controlsParam>
    </modKnob>
    <modKnob>
      <controlsParam>volumePostFX</controlsParam>
    </modKnob>
  </modKnobs>
</sound>
"#;

#[test]
fn mod_load_save_load_sound_subtractive() {
    let synth = deserialize_synth(SYNT061).unwrap();
    let xml = serialize_synth(&synth).unwrap();
    let reloaded_synth = deserialize_synth(&xml).unwrap();

    assert_eq!(reloaded_synth, synth);
}

#[test]
fn load_valid_sound_subtractive_version_2() {
    let (synth, info) = deserialize_synth_with_version(SYNT061).unwrap();
    let sound = &synth.sound;

    assert_eq!(FormatVersion::Version2, info.format_version);
    assert_eq!(Some("2.0.0".to_string()), info.firmware_version);
    assert_eq!(sound.voice_priority, VoicePriority::Medium);
    assert_eq!(sound.polyphonic, Polyphony::Poly);
    assert_eq!(sound.volume, HexU50::parse("0x6C000000").unwrap());
    assert_eq!(sound.pan, Pan::parse("0x00000000").unwrap());
    assert_eq!(sound.portamento, HexU50::parse("0x80000000").unwrap());
    assert_eq!(sound.lfo1.shape, LfoShape::Triangle);
    assert_eq!(sound.lfo1.sync_level, SyncLevel::Off);
    assert_eq!(sound.lfo2.rate, HexU50::parse("0x33333313").unwrap());
    assert_eq!(sound.envelope1.decay, HexU50::parse("0xF5C28F47").unwrap());
    assert_eq!(sound.delay.ping_pong, OnOff::On);
    assert_eq!(sound.delay.sync_level, SyncLevel::Eighth);
    assert_eq!(sound.sidechain.attack.to_u32(), 327244);
    assert_eq!(sound.sidechain.release.to_u32(), 936);
    assert_eq!(3, sound.cables.len());
    assert_eq!("velocity", sound.cables[0].source);
    assert_eq!("lpfFrequency", sound.cables[2].destination);
    assert_eq!(HexU50::parse("0x251EB844").unwrap(), sound.cables[2].amount);
    match &sound.generator {
        SynthEngine::Subtractive(g) => {
            assert_eq!(HexU50::parse("0x70A3D6DF").unwrap(), g.osc1_volume);
            assert_eq!(HexU50::parse("0x24000000").unwrap(), g.lpf_frequency);
            assert_eq!(OnOff::Off, g.osc2_sync);
        },
        _ => panic!("a subtractive engine was expected"),
    }
}

#[test]
fn default_synth_round_trip() {
    let synth = Synth::default();
    let xml = serialize_synth(&synth).unwrap();
    let (reloaded, info) = deserialize_synth_with_version(&xml).unwrap();

    assert_eq!(synth, reloaded);
    assert_eq!(FormatVersion::Version3, info.format_version);
    assert_eq!(Some("3.1.5".to_string()), info.earliest_compatible_firmware);
}

#[test]
fn default_kit_round_trip() {
    let kit = Kit::default();
    let xml = serialize_kit(&kit).unwrap();
    let (reloaded, info) = deserialize_kit_with_version(&xml).unwrap();

    assert_eq!(kit, reloaded);
    assert_eq!(FormatVersion::Version3, info.format_version);
}

#[test]
fn kit_with_midi_and_gate_rows_round_trip() {
    let mut kit = Kit::default();
    kit.add_midi_row(MidiChannel::new(3), 60);
    kit.add_gate_row(CvGateChannel::new(1));
    kit.selected_row_index = Some(2);
    let xml = serialize_kit(&kit).unwrap();
    let reloaded = deserialize_kit(&xml).unwrap();

    assert_eq!(kit, reloaded);
    assert_eq!(3, reloaded.rows.len());
    assert_eq!(RowKit::Midi(MidiRow { channel: MidiChannel::new(3), note: 60 }), reloaded.rows[1]);
    assert_eq!(RowKit::CvGate(CvGateRow { channel: CvGateChannel::new(1) }), reloaded.rows[2]);
}

#[test]
fn test_parse_version() {
    assert_eq!(FormatVersion::Version1, parse_version("1".to_string()));
    assert_eq!(FormatVersion::Version2, parse_version("2".to_string()));
    assert_eq!(FormatVersion::Version3, parse_version("3".to_string()));
    assert_eq!(FormatVersion::Version3, parse_version("3.0.0".to_string()));
    assert_eq!(FormatVersion::Version3, parse_version("3.0.0-beta".to_string()));
    assert_eq!(FormatVersion::Unsupported, parse_version("666".to_string()));
    assert_eq!(FormatVersion::Unsupported, parse_version("0".to_string()));
    assert_eq!(FormatVersion::Unknown, parse_version("HEU!".to_string()));
    assert_eq!(FormatVersion::Version1, format_of_version(None));
}

#[test]
fn unsupported_version_is_refused() {
    let xml = "<sound firmwareVersion=\"6.0.0\" earliestCompatibleFirmware=\"6.0.0\"/>";
    assert_eq!(Err(SerializationError::InvalidVersionFormat), deserialize_synth(xml));
}

#[test]
fn missing_sound_is_reported() {
    assert_eq!(Err(SerializationError::MissingElement("sound".to_string())), deserialize_synth("<kit/>"));
}

#[test]
fn malformed_xml_is_reported() {
    assert!(matches!(deserialize_synth("<sound>"), Err(SerializationError::XmlParsingFailed(_))));
}

#[test]
fn unknown_row_is_refused() {
    let xml = "<kit firmwareVersion=\"3.1.5\" earliestCompatibleFirmware=\"3.1.5\"><soundSources><piano/></soundSources></kit>";
    assert_eq!(Err(SerializationError::UnsupportedSoundSource("piano".to_string())), deserialize_kit(xml));
}

#[test]
fn milliseconds_conversion() {
    assert_eq!(44100, convert_milliseconds_to_samples(1000));
    assert_eq!(44, convert_milliseconds_to_samples(1));
    assert_eq!(0, convert_milliseconds_to_samples(0));
    assert_eq!(22050, convert_milliseconds_to_samples(500));
}

#[test]
fn waveform_oscillator_type_survives() {
    let synth = deserialize_synth(SYNT061).unwrap();
    match &synth.sound.generator {
        SynthEngine::Subtractive(g) => match &g.osc2 {
            deluge::sound::subtractive::SubtractiveOscillator::Waveform(w) => {
                assert_eq!(OscType::Saw, w.osc_type);
                assert_eq!(8, w.fine_transpose.as_i8());
            },
            _ => panic!("a waveform oscillator was expected"),
        },
        _ => panic!("a subtractive engine was expected"),
    }
}

fn check_sync<T: Sync>() {}

#[test]
fn test_error_is_sync() {
    check_sync::<deluge::error::SerializationError>();
}

const KIT_VERSION_2: &str = r#"<?xml version="1.0" encoding="UTF-8"?>
<firmwareVersion>2.1.0</firmwareVersion>
<earliestCompatibleFirmware>2.0.0</earliestCompatibleFirmware>
<kit>
  <lpfMode>24dB</lpfMode>
  <modFXType>none</modFXType>
  <currentFilterType>lpf</currentFilterType>
  <delay>
    <pingPong>1</pingPong>
    <analog>0</analog>
    <syncLevel>7</syncLevel>
  </delay>
  <compressor>
    <syncLevel>6</syncLevel>
  </compressor>
  <defaultParams>
    <reverbAmount>0x80000000</reverbAmount>
    <volume>0x3504F334</volume>
    <pan>0x00000000</pan>
    <lpf>
      <frequency>0x7FFFFFFF</frequency>
      <resonance>0x80000000</resonance>
    </lpf>
    <hpf>
      <frequency>0x80000000</frequency>
      <resonance>0x80000000</resonance>
    </hpf>
    <bitCrush>0x80000000</bitCrush>
    <sampleRateReduction>0x80000000</sampleRateReduction>
    <stutterRate>0x00000000</stutterRate>
    <delay>
      <rate>0x00000000</rate>
      <feedback>0x80000000</feedback>
    </delay>
    <equalizer>
      <bass>0x00000000</bass>
      <treble>0x00000000</treble>
      <bassFrequency>0x00000000</bassFrequency>
      <trebleFrequency>0x00000000</trebleFrequency>
    </equalizer>
  </defaultParams>
  <soundSources>
    <midiOutput>
      <channel>3</channel>
      <note>60</note>
    </midiOutput>
    <gateOutput>
      <channel>1</channel>
    </gateOutput>
  </soundSources>
  <selectedDrumIndex>1</selectedDrumIndex>
</kit>
"#;

#[test]
fn kit_version_2_reads_back_after_saving() {
    let (kit, info) = deserialize_kit_with_version(KIT_VERSION_2).unwrap();
    assert_eq!(FormatVersion::Version2, info.format_version);
    assert_eq!(2, kit.rows.len());
    assert_eq!(Some(1), kit.selected_row_index);
    assert_eq!(SyncLevel::Sixteenth, kit.delay.sync_level);

    let xml = serialize_kit(&kit).unwrap();
    let (reloaded, reloaded_info) = deserialize_kit_with_version(&xml).unwrap();

    assert_eq!(kit, reloaded);
    assert_eq!(FormatVersion::Version3, reloaded_info.format_version);
}

#[test]
fn synth_version_1_reads_back_after_saving() {
    let version_1 = SYNT061
        .replace("<firmwareVersion>2.0.0</firmwareVersion>\n", "")
        .replace("<earliestCompatibleFirmware>2.0.0</earliestCompatibleFirmware>\n", "");
    let (synth, info) = deserialize_synth_with_version(&version_1).unwrap();
    assert_eq!(FormatVersion::Version1, info.format_version);
    assert_eq!(None, info.firmware_version);

    let xml = serialize_synth(&synth).unwrap();
    let (reloaded, reloaded_info) = deserialize_synth_with_version(&xml).unwrap();

    assert_eq!(synth, reloaded);
    assert_eq!(FormatVersion::Version3, reloaded_info.format_version);
    assert_eq!(Some("3.1.5".to_string()), reloaded_info.firmware_version);
}

#[test]
fn add_sound_row_hands_back_the_new_sound() {
    let mut kit = Kit::default();
    let sound = kit.add_sound_row(deluge::sound::Sound::default());
    sound.volume = HexU50(12);

    assert_eq!(2, kit.rows.len());
    match &kit.rows[1] {
        RowKit::Sound(row) => {
            assert_eq!("U2", row.name);
            assert_eq!(HexU50(12), row.sound.volume);
        },
        _ => panic!("a sound row was expected"),
    }
}

#[test]
fn row_names_of_the_kit_module() {
    assert_eq!(CvGateRow { channel: CvGateChannel::new(2) }, CvGateOutput::new(CvGateChannel::new(2)));
    let midi: MidiOutput = MidiRow { channel: MidiChannel::new(1), note: 60 };
    assert_eq!(60, midi.note);
}

#[test]
fn saving_refuses_a_hexu50_above_50() {
    let mut sound = deluge::sound::Sound::default();
    sound.volume = HexU50::new(51);
    let synth = Synth { sound };
    assert_eq!(
        serialize_synth(&synth),
        Err(SerializationError::Overflow("51".to_string(), "50".to_string()))
    );

    let mut kit = Kit::default();
    kit.lpf.resonance = HexU50::new(60);
    assert_eq!(serialize_kit(&kit), Err(SerializationError::Overflow("60".to_string(), "50".to_string())));

    let mut kit = Kit::default();
    let row_sound = kit.add_sound_row(deluge::sound::Sound::default());
    row_sound.envelope1.attack = HexU50::new(200);
    assert_eq!(serialize_kit(&kit), Err(SerializationError::Overflow("200".to_string(), "50".to_string())));

    assert!(serialize_kit(&Kit::default()).is_ok());
}
