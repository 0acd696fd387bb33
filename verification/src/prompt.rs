//! Assembly of the printed prompt.
//!
//! The prompt is a fixed sequence of pieces: the styled working
//! directory, a space, the reference label, a space, the dimmed
//! status indicator, a newline, the prompt character, and a final
//! space. When no repository information is available the two
//! repository pieces are empty bare text, so only the separating
//! spaces remain.

use vstd::prelude::*;
use crate::config::Config;
use crate::cwd::{present, present_spec};
use crate::privilege::{alert_color, normal_color, select};
use crate::status::StatusIndicator;
use crate::style::{ColorName, StyledString};
use crate::vcs::{RefInfo, ref_label};

verus! {

/// One piece of the printed prompt.
#[derive(Debug)]
pub enum Piece {
    Bare(String),
    Styled(StyledString),
}

/// The glyph the configuration assigns to an indicator.
pub open spec fn indicator_glyph(ind: StatusIndicator, cfg: Config) -> Seq<char> {
    match ind {
        StatusIndicator::Clean => cfg.clean_glyph@,
        StatusIndicator::IndexModified => cfg.index_glyph@,
        StatusIndicator::WorkTreeModified => cfg.wt_glyph@,
    }
}

/// The color the configuration assigns to an indicator.
pub open spec fn indicator_color(ind: StatusIndicator, cfg: Config) -> ColorName {
    match ind {
        StatusIndicator::Clean => cfg.clean_color,
        StatusIndicator::IndexModified => cfg.index_color,
        StatusIndicator::WorkTreeModified => cfg.wt_color,
    }
}

/// Style a status indicator with its configured glyph and color.
pub fn indicator_style(ind: StatusIndicator, cfg: &Config) -> (r: StyledString)
    ensures
        r.text@ == indicator_glyph(ind, *cfg),
        r.color == indicator_color(ind, *cfg),
        r.dim == false,
{
    match ind {
        StatusIndicator::Clean => StyledString {
            text: cfg.clean_glyph.as_str().to_owned(),
            color: cfg.clean_color,
            dim: false,
        },
        StatusIndicator::IndexModified => StyledString {
            text: cfg.index_glyph.as_str().to_owned(),
            color: cfg.index_color,
            dim: false,
        },
        StatusIndicator::WorkTreeModified => StyledString {
            text: cfg.wt_glyph.as_str().to_owned(),
            color: cfg.wt_color,
            dim: false,
        },
    }
}

/// Style a reference label as the prompt shows it.
pub fn ref_piece(info: &RefInfo) -> (r: StyledString)
    ensures
        r.text@ == ref_label(*info),
        r.color == ColorName::BrightBlack,
        r.dim == false,
{
    match info {
        RefInfo::Branch(name) => StyledString {
            text: name.as_str().to_owned(),
            color: ColorName::BrightBlack,
            dim: false,
        },
        RefInfo::Detached(label) => StyledString {
            text: label.as_str().to_owned(),
            color: ColorName::BrightBlack,
            dim: false,
        },
    }
}

/// Assemble the whole prompt as its eight pieces, in print order.
pub fn render_pieces(
    cfg: &Config,
    pwd: &str,
    effective_uid: u32,
    vcs: Option<(RefInfo, StatusIndicator)>,
) -> (r: Vec<Piece>)
    ensures
        r@.len() == 8,
        r@[0] matches Piece::Styled(s) && s.text@ == present_spec(pwd@, cfg.home@, cfg.opts)
            && s.color == cfg.opts.color && !s.dim,
        r@[1] matches Piece::Bare(t) && t@ == " "@,
        vcs matches Some(p) ==> (r@[2] matches Piece::Styled(s) && s.text@ == ref_label(p.0)
            && s.color == ColorName::BrightBlack && !s.dim),
        vcs is None ==> (r@[2] matches Piece::Bare(t) && t@ == Seq::<char>::empty()),
        r@[3] matches Piece::Bare(t) && t@ == " "@,
        vcs matches Some(p) ==> (r@[4] matches Piece::Styled(s) && s.text@ == indicator_glyph(
            p.1,
            *cfg,
        ) && s.color == indicator_color(p.1, *cfg) && s.dim),
        vcs is None ==> (r@[4] matches Piece::Bare(t) && t@ == Seq::<char>::empty()),
        r@[5] matches Piece::Bare(t) && t@ == "\n"@,
        r@[6] matches Piece::Styled(s) && s.text@ == (if effective_uid == 0 {
            cfg.prompt_char_root@
        } else {
            cfg.prompt_char@
        }) && s.color == (if effective_uid == 0 {
            alert_color()
        } else {
            normal_color()
        }) && !s.dim,
        r@[7] matches Piece::Bare(t) && t@ == " "@,
{
    proof {
        reveal_strlit("");
        assert(""@ =~= Seq::<char>::empty());
    }
    let cwd_piece = present(pwd, cfg.home.as_str(), &cfg.opts);
    let prompt_piece = select(
        effective_uid,
        cfg.prompt_char.as_str(),
        cfg.prompt_char_root.as_str(),
    );
    let mut out: Vec<Piece> = Vec::new();
    out.push(Piece::Styled(cwd_piece));
    out.push(Piece::Bare(" ".to_owned()));
    match vcs {
        Some((info, ind)) => {
            out.push(Piece::Styled(ref_piece(&info)));
            out.push(Piece::Bare(" ".to_owned()));
            let styled = indicator_style(ind, cfg);
            out.push(
                Piece::Styled(StyledString { text: styled.text, color: styled.color, dim: true }),
            );
        },
        None => {
            out.push(Piece::Bare("".to_owned()));
            out.push(Piece::Bare(" ".to_owned()));
            out.push(Piece::Bare("".to_owned()));
        },
    }
    out.push(Piece::Bare("\n".to_owned()));
    out.push(Piece::Styled(prompt_piece));
    out.push(Piece::Bare(" ".to_owned()));
    out
}

} // verus!
