use vstd::prelude::*;

use crate::decimal::{decimal_string, lemma_decimal_value_roundtrip, spec_decimal, spec_decimal_value};

verus! {

/// The program's name, as the banner shows it.
pub const APP_NAME: &'static str = "Smart File Duplicate Manager";

/// The author named in the copyright footer.
pub const AUTHOR: &'static str = "Alexander Suvorov";

/// The author's handle, shown in angle brackets after the name.
pub const GITHUB: &'static str = "smartlegionlab";

/// The repository address shown on the footer's last line.
pub const REPO_URL: &'static str = "https://github.com/smartlegionlab";

/// The year of the copyright notice.
pub const COPYRIGHT_YEAR: u32 = 2025;

/// The banner: `<name> v<version>`, then an empty line.
pub open spec fn spec_header(version: Seq<char>) -> Seq<char> {
    APP_NAME@ + " v"@ + version + "\n"@ + "\n"@
}

/// The footer: an empty line, `Copyright (c) <year> <author> <<handle>>`,
/// then `Repo: <url>`.
pub open spec fn spec_footer() -> Seq<char> {
    "\n"@ + "Copyright (c) "@ + spec_decimal(COPYRIGHT_YEAR as nat) + " "@ + AUTHOR@ + " <"@
        + GITHUB@ + ">\n"@ + "Repo: "@ + REPO_URL@ + "\n"@
}

/// The banner opens with `Smart File Duplicate Manager v`, shows the version
/// right after it, and ends with an empty line.
pub proof fn lemma_header_names_program_and_version(version: Seq<char>)
    ensures
        spec_header(version).len() == version.len() + 32,
        spec_header(version).subrange(0, 30) == "Smart File Duplicate Manager v"@,
        spec_header(version).subrange(30, 30 + version.len() as int) == version,
        spec_header(version).subrange(30 + version.len() as int, 32 + version.len() as int) == "\n\n"@,
{
    reveal_strlit("Smart File Duplicate Manager");
    reveal_strlit("Smart File Duplicate Manager v");
    reveal_strlit(" v");
    reveal_strlit("\n");
    reveal_strlit("\n\n");
    let h = spec_header(version);
    assert(h.subrange(0, 30) =~= "Smart File Duplicate Manager v"@);
    assert(h.subrange(30, 30 + version.len() as int) =~= version);
    assert(h.subrange(30 + version.len() as int, 32 + version.len() as int) =~= "\n\n"@);
}

/// The footer opens with an empty line and `Copyright (c) `, followed by
/// the decimal numeral of the copyright year, which reads back as that year.
pub proof fn lemma_footer_names_copyright_year()
    ensures
        spec_footer().subrange(0, 15) == "\nCopyright (c) "@,
        spec_footer().subrange(15, 15 + spec_decimal(COPYRIGHT_YEAR as nat).len() as int)
            == spec_decimal(COPYRIGHT_YEAR as nat),
        spec_decimal_value(spec_decimal(COPYRIGHT_YEAR as nat)) == COPYRIGHT_YEAR,
{
    reveal_strlit("\n");
    reveal_strlit("Copyright (c) ");
    reveal_strlit("\nCopyright (c) ");
    let d = spec_decimal(COPYRIGHT_YEAR as nat);
    let f = spec_footer();
    assert(f.subrange(0, 15) =~= "\nCopyright (c) "@);
    assert(f.subrange(15, 15 + d.len() as int) =~= d);
    lemma_decimal_value_roundtrip(COPYRIGHT_YEAR as nat);
}

/// The banner printed before anything else, for the given version string.
pub fn header(version: &str) -> (s: String)
    ensures
        s@ == spec_header(version@),
{
    let mut s = String::from_str(APP_NAME);
    s.append(" v");
    s.append(version);
    s.append("\n");
    s.append("\n");
    s
}

/// The copyright footer printed after everything else.
pub fn footer() -> (s: String)
    ensures
        s@ == spec_footer(),
{
    let mut s = String::from_str("\n");
    s.append("Copyright (c) ");
    let year = decimal_string(COPYRIGHT_YEAR);
    s.append(year.as_str());
    s.append(" ");
    s.append(AUTHOR);
    s.append(" <");
    s.append(GITHUB);
    s.append(">\n");
    s.append("Repo: ");
    s.append(REPO_URL);
    s.append("\n");
    s
}

} // verus!
