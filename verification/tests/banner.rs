use smart_file_duplicate_manager::banner::{
    footer, header, APP_NAME, AUTHOR, COPYRIGHT_YEAR, GITHUB, REPO_URL,
};

#[test]
fn header_names_program_and_version() {
    assert_eq!(header("1.4.2"), "Smart File Duplicate Manager v1.4.2\n\n");
}

#[test]
fn header_with_empty_version() {
    assert_eq!(header(""), "Smart File Duplicate Manager v\n\n");
}

#[test]
fn header_keeps_version_text_verbatim() {
    let h = header("0.1.0-beta <dev>");
    assert!(h.starts_with("Smart File Duplicate Manager v"));
    assert!(h.contains("0.1.0-beta <dev>"));
    assert!(h.ends_with("\n\n"));
}

#[test]
fn footer_exact_text() {
    assert_eq!(
        footer(),
        "\nCopyright (c) 2025 Alexander Suvorov <smartlegionlab>\nRepo: https://github.com/smartlegionlab\n"
    );
}

#[test]
fn banner_and_footer_markers() {
    assert!(header("9.9.9").contains("Smart File Duplicate Manager v"));
    assert!(!header("9.9.9").contains("Copyright (c)"));
    assert!(footer().contains("Copyright (c)"));
    assert!(!footer().contains("Smart File Duplicate Manager v"));
}

#[test]
fn footer_names_copyright_year() {
    let f = footer();
    assert!(f.starts_with("\nCopyright (c) "));
    assert_eq!(&f[15..19], COPYRIGHT_YEAR.to_string());
}

#[test]
fn constants_hold_program_identity() {
    assert_eq!(APP_NAME, "Smart File Duplicate Manager");
    assert_eq!(AUTHOR, "Alexander Suvorov");
    assert_eq!(GITHUB, "smartlegionlab");
    assert_eq!(REPO_URL, "https://github.com/smartlegionlab");
    assert_eq!(COPYRIGHT_YEAR, 2025);
}
