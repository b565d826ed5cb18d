//! Terminal styling of failure reasons.
use vstd::prelude::*;
use vstd::string::*;

verus! {

/// The constant `inline_colorization::style_bold`: the escape sequence that
/// switches bold text on. Its text is taken on trust from that crate.
#[verifier::external_body]
fn bold_on() -> (code: &'static str)
    ensures
        code@ == "\x1B[1m"@,
{
    inline_colorization::style_bold
}

/// The constant `inline_colorization::style_reset`: the escape sequence that
/// resets every style. Its text is taken on trust from that crate.
#[verifier::external_body]
fn style_off() -> (code: &'static str)
    ensures
        code@ == "\x1B[0m"@,
{
    inline_colorization::style_reset
}

/// The constant `inline_colorization::color_bright_red`: the escape sequence
/// that selects a bright red foreground. Its text is taken on trust from that
/// crate.
#[verifier::external_body]
fn bright_red_on() -> (code: &'static str)
    ensures
        code@ == "\x1B[91m"@,
{
    inline_colorization::color_bright_red
}

/// The constant `inline_colorization::color_reset`: the escape sequence that
/// restores the default foreground. Its text is taken on trust from that crate.
#[verifier::external_body]
fn color_off() -> (code: &'static str)
    ensures
        code@ == "\x1B[39m"@,
{
    inline_colorization::color_reset
}

/// The heading of every failure reason that the orchestration words itself:
/// the title in bold bright red, followed by the two resets.
pub open spec fn banner_text() -> Seq<char> {
    "\x1B[1m"@ + "\x1B[91m"@ + "ReactJS Frontend build error:"@ + "\x1B[39m"@ + "\x1B[0m"@
}

/// Builds the styled heading of a failure reason.
pub fn error_banner() -> (banner: String)
    ensures
        banner@ == banner_text(),
{
    let mut banner = String::from_str(bold_on());
    banner.append(bright_red_on());
    banner.append("ReactJS Frontend build error:");
    banner.append(color_off());
    banner.append(style_off());
    banner
}

} // verus!
