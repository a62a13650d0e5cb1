use image_convert::derivative_name;
use image_convert::join_path;
use image_convert::parse_input_path;
use image_convert::str_to_hash;
use image_convert::with_ext;
use image_convert::ConvertError;

#[test]
fn sha3_known_vector() {
    // SHA3-256("abc"), the reference value of the digest family.
    assert_eq!(
        str_to_hash("abc"),
        "3a985da74fe225b2045c172d6bd390bd855f086e3e9d525b46bfe24511431532"
    );
}

#[test]
fn hash_is_deterministic() {
    assert_eq!(str_to_hash("/storage"), str_to_hash("/storage"));
}

#[test]
fn hash_differs_across_directories() {
    assert_ne!(str_to_hash("/storage"), str_to_hash("/media"));
    assert_ne!(str_to_hash(""), str_to_hash("/"));
}

#[test]
fn hash_is_fixed_length_hex() {
    let h = str_to_hash("");
    assert_eq!(h.len(), 64);
    assert!(h.chars().all(|c| c.is_ascii_hexdigit() && !c.is_ascii_uppercase()));
}

#[test]
fn derivative_name_composition() {
    let h = str_to_hash("/storage");
    assert_eq!(
        derivative_name("large", "example", &h),
        format!("large_example_{}", h)
    );
}

#[test]
fn join_path_inserts_separator() {
    assert_eq!(join_path("/storage", "f.jpg"), "/storage/f.jpg");
    assert_eq!(join_path("", "f.jpg"), "f.jpg");
    assert_eq!(join_path("dir/", "f.jpg"), "dir/f.jpg");
    assert_eq!(join_path("/", "f.jpg"), "/f.jpg");
}

#[test]
fn with_ext_appends_dot() {
    assert_eq!(with_ext("large_example_ab", "jpg"), "large_example_ab.jpg");
}

#[test]
fn parse_splits_and_lowercases() {
    let p = parse_input_path("/storage/example.JPG").unwrap();
    assert_eq!(p.parent, "/storage");
    assert_eq!(p.stem, "example");
    assert_eq!(p.ext, "jpg");
}

#[test]
fn parse_bare_file_name() {
    let p = parse_input_path("a.jpg").unwrap();
    assert_eq!(p.parent, "");
    assert_eq!(p.stem, "a");
    assert_eq!(p.ext, "jpg");
}

#[test]
fn parse_file_under_root() {
    let p = parse_input_path("/a.png").unwrap();
    assert_eq!(p.parent, "/");
    assert_eq!(p.stem, "a");
    assert_eq!(p.ext, "png");
}

#[test]
fn parse_keeps_earlier_dots_in_stem() {
    let p = parse_input_path("/d/archive.tar.gz").unwrap();
    assert_eq!(p.stem, "archive.tar");
    assert_eq!(p.ext, "gz");
}

#[test]
fn parse_rejects_missing_extension() {
    assert!(matches!(
        parse_input_path("/storage/noext"),
        Err(ConvertError::Input(_))
    ));
}

#[test]
fn parse_rejects_empty_stem() {
    assert!(matches!(
        parse_input_path("/storage/.jpg"),
        Err(ConvertError::Input(_))
    ));
}

#[test]
fn parse_rejects_empty_extension() {
    assert!(matches!(parse_input_path("/storage/x."), Err(ConvertError::Input(_))));
}

#[test]
fn parse_rejects_directory_path() {
    assert!(matches!(parse_input_path("/storage/"), Err(ConvertError::Input(_))));
}
