use lightfixes::ids::{ascii_lower, bytes_eq, contains_bytes};
use lightfixes::paths::{config_dir_of, output_name_bytes, should_scan};

fn scan(p: &str) -> bool {
    should_scan(&p.as_bytes().to_vec())
}

#[test]
fn recognized_extensions_are_scanned() {
    assert!(scan("plugins/foo.esp"));
    assert!(scan("foo.esm"));
    assert!(scan("/data/mods/lights.omwaddon"));
    assert!(scan("base.omwgame"));
}

#[test]
fn unrecognized_extensions_are_skipped() {
    assert!(!scan("readme.txt"));
    assert!(!scan("foo.ESP"));
    assert!(!scan("noextension"));
    assert!(!scan("dir.esp/noextension"));
    assert!(!scan("archive.esp.zip"));
    assert!(!scan("trailingdot."));
    assert!(!scan(""));
}

#[test]
fn hidden_file_has_no_extension() {
    assert!(!scan(".omwaddon"));
    assert!(scan("dir/.hidden.esp"));
}

#[test]
fn own_output_is_never_scanned() {
    assert!(!scan("S3LightFixes.omwaddon"));
    assert!(!scan("/home/user/.local/share/S3LightFixes.omwaddon"));
    // Even a differently named file is excluded when the output's name
    // occurs inside its path.
    assert!(!scan("backup/S3LightFixes.omwaddon.old/copy.esp"));
    assert_eq!(output_name_bytes(), b"S3LightFixes.omwaddon".to_vec());
}

#[test]
fn config_dir_resolves_to_the_parent_of_the_config_file() {
    assert_eq!(
        config_dir_of(&b"/home/user/.config/openmw/openmw.cfg".to_vec()),
        b"/home/user/.config/openmw".to_vec()
    );
    // The check is case-insensitive.
    assert_eq!(
        config_dir_of(&b"C:\\Games\\OpenMW.cfg".to_vec()),
        b"C:\\Games".to_vec()
    );
    // A path that does not name the configuration file is kept as is.
    assert_eq!(
        config_dir_of(&b"/home/user/.config/openmw".to_vec()),
        b"/home/user/.config/openmw".to_vec()
    );
    // A bare file name has the empty directory.
    assert_eq!(config_dir_of(&b"openmw.cfg".to_vec()), b"".to_vec());
    // A file directly under the root keeps the root.
    assert_eq!(config_dir_of(&b"/openmw.cfg".to_vec()), b"/".to_vec());
}

#[test]
fn identifier_lowering_is_ascii_only() {
    assert_eq!(ascii_lower(&b"Torch_01 AZ az".to_vec()), b"torch_01 az az".to_vec());
    let high = vec![0xC4u8, 0x8E, 65];
    assert_eq!(ascii_lower(&high), vec![0xC4u8, 0x8E, 97]);
}

#[test]
fn byte_string_helpers() {
    assert!(bytes_eq(&b"abc".to_vec(), &b"abc".to_vec()));
    assert!(!bytes_eq(&b"abc".to_vec(), &b"abd".to_vec()));
    assert!(!bytes_eq(&b"abc".to_vec(), &b"ab".to_vec()));
    assert!(contains_bytes(&b"hello world".to_vec(), &b"o w".to_vec()));
    assert!(contains_bytes(&b"abc".to_vec(), &b"".to_vec()));
    assert!(!contains_bytes(&b"abc".to_vec(), &b"abcd".to_vec()));
    assert!(!contains_bytes(&b"abc".to_vec(), &b"ac".to_vec()));
}
