use argon::compiler::strings::{Encoding, Endianness};
use argon::driver::{
    decode_manifest, try_well_known_config_paths, well_known_config_paths, ManifestDecodingError, ManifestFormat, Target,
};

#[test]
fn manifest_formats_by_name() {
    assert_eq!(ManifestFormat::from_str("json"), Ok(ManifestFormat::JSON));
    assert_eq!(ManifestFormat::from_str("JSON"), Ok(ManifestFormat::JSON));
    assert_eq!(ManifestFormat::from_str("yml"), Ok(ManifestFormat::StrictYAML));
    assert_eq!(ManifestFormat::from_str("TOML"), Ok(ManifestFormat::TOML));
    assert_eq!(
        ManifestFormat::from_str("ini"),
        Err("Unknown and unsupported manifest format 'ini'".to_string())
    );
    assert_eq!(ManifestFormat::StrictYAML.keyword(), "yaml");
}

#[test]
fn well_known_paths_in_order() {
    let paths = well_known_config_paths();
    assert_eq!(paths.len(), 7);
    assert_eq!(paths[0], "doc.json");
    assert_eq!(paths[4], "doc/doc.yaml");
    assert_eq!(paths[6], "Documentation/doc.yaml");
    let mut exists = vec![false; 7];
    assert_eq!(try_well_known_config_paths(&exists), None);
    exists[5] = true;
    exists[2] = true;
    assert_eq!(try_well_known_config_paths(&exists), Some("docs/doc.json"));
}

#[test]
fn manifest_decoding() {
    assert_eq!(decode_manifest(b"{}", Encoding::UTF8).ok(), Some("{}".to_string()));
    assert!(matches!(decode_manifest(&[0xff, 0xfe], Encoding::UTF8), Err(ManifestDecodingError::EncodingError)));
    let le = [0x7b, 0x00, 0x7d, 0x00];
    assert_eq!(decode_manifest(&le, Encoding::UTF16(Endianness::LittleEndian)).ok(), Some("{}".to_string()));
    let be = [0x00, 0x7b, 0x00, 0x7d];
    assert_eq!(decode_manifest(&be, Encoding::UTF16(Endianness::BigEndian)).ok(), Some("{}".to_string()));
    // An unpaired surrogate is no UTF-16.
    let bad = [0x00, 0xd8];
    assert!(matches!(
        decode_manifest(&bad, Encoding::UTF16(Endianness::LittleEndian)),
        Err(ManifestDecodingError::TranscodingFailure(_))
    ));
}

#[test]
fn glob_patterns() {
    assert_eq!(Target::glob_pattern("base/", "src/*.c"), "base/src/*.c");
    assert_eq!(Target::glob_pattern("base/", "/abs/*.h"), "/abs/*.h");
}
