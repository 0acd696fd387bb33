//! The prompt's configuration, gathered once from the process
//! environment and passed explicitly from then on.
//!
//! Every setting is optional and has a default; only the home
//! directory is required, since the prompt cannot render without it.

use vstd::prelude::*;
use crate::cwd::{PresentationOptions, TildeMode};
use crate::style::{ColorName, color_from_name, color_of_name};
use crate::text::str_eq;

verus! {

/// Everything the prompt is configured with.
pub struct Config {
    pub home: String,
    pub opts: PresentationOptions,
    pub prompt_char: String,
    pub prompt_char_root: String,
    pub clean_color: ColorName,
    pub wt_color: ColorName,
    pub index_color: ColorName,
    pub clean_glyph: String,
    pub wt_glyph: String,
    pub index_glyph: String,
}

/// The value of an optional setting, or its default.
pub open spec fn or_default(v: Option<String>, d: Seq<char>) -> Seq<char> {
    match v {
        Some(s) => s@,
        None => d,
    }
}

/// The tilde mode a setting selects: `"0"`, the default, collapses
/// the home prefix; any other value keeps the path literal.
pub open spec fn tilde_mode_of(v: Option<String>) -> TildeMode {
    if or_default(v, "0"@) == "0"@ {
        TildeMode::CollapseHome
    } else {
        TildeMode::KeepLiteral
    }
}

/// Whether shortening is on: any value but `"0"`; the default is on.
pub open spec fn shorten_of(v: Option<String>) -> bool {
    or_default(v, "1"@) != "0"@
}

fn opt_or(v: Option<String>, d: &str) -> (r: String)
    ensures
        r@ == or_default(v, d@),
{
    match v {
        Some(s) => s,
        None => d.to_owned(),
    }
}

/// Build the configuration from the raw setting values, applying each
/// default where a setting is absent.
pub fn build_config(
    home: String,
    expand_tilde: Option<String>,
    shorten_cwd: Option<String>,
    cwd_color: Option<String>,
    prompt_char: Option<String>,
    prompt_char_root: Option<String>,
    clean_color: Option<String>,
    wt_modified_color: Option<String>,
    index_modified_color: Option<String>,
    clean_glyph: Option<String>,
    wt_modified_glyph: Option<String>,
    index_modified_glyph: Option<String>,
) -> (r: Config)
    ensures
        r.home == home,
        r.opts.tilde == tilde_mode_of(expand_tilde),
        r.opts.shorten == shorten_of(shorten_cwd),
        r.opts.color == color_of_name(or_default(cwd_color, "white"@)),
        r.prompt_char@ == or_default(prompt_char, "$ "@),
        r.prompt_char_root@ == or_default(prompt_char_root, "# "@),
        r.clean_color == color_of_name(or_default(clean_color, "green"@)),
        r.wt_color == color_of_name(or_default(wt_modified_color, "red"@)),
        r.index_color == color_of_name(or_default(index_modified_color, "yellow"@)),
        r.clean_glyph@ == or_default(clean_glyph, "·"@),
        r.wt_glyph@ == or_default(wt_modified_glyph, "×"@),
        r.index_glyph@ == or_default(index_modified_glyph, "±"@),
{
    let tilde_raw = opt_or(expand_tilde, "0");
    let tilde = if str_eq(tilde_raw.as_str(), "0") {
        TildeMode::CollapseHome
    } else {
        TildeMode::KeepLiteral
    };
    let shorten_raw = opt_or(shorten_cwd, "1");
    let shorten = !str_eq(shorten_raw.as_str(), "0");
    let cwd_color_raw = opt_or(cwd_color, "white");
    let color = color_from_name(cwd_color_raw.as_str());
    let clean_color_raw = opt_or(clean_color, "green");
    let wt_color_raw = opt_or(wt_modified_color, "red");
    let index_color_raw = opt_or(index_modified_color, "yellow");
    Config {
        home,
        opts: PresentationOptions { tilde, shorten, color },
        prompt_char: opt_or(prompt_char, "$ "),
        prompt_char_root: opt_or(prompt_char_root, "# "),
        clean_color: color_from_name(clean_color_raw.as_str()),
        wt_color: color_from_name(wt_color_raw.as_str()),
        index_color: color_from_name(index_color_raw.as_str()),
        clean_glyph: opt_or(clean_glyph, "·"),
        wt_glyph: opt_or(wt_modified_glyph, "×"),
        index_glyph: opt_or(index_modified_glyph, "±"),
    }
}

} // verus!
