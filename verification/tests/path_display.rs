use promptline::cwd::{collapse_home, present, shorten_path, PresentationOptions, TildeMode};
use promptline::style::ColorName;

#[test]
fn collapse_home_replaces_prefix() {
    assert_eq!(
        collapse_home("/home/alice/projects/foo", "/home/alice"),
        "~/projects/foo"
    );
}

#[test]
fn collapse_home_exact_match() {
    assert_eq!(collapse_home("/home/alice", "/home/alice"), "~");
}

#[test]
fn collapse_home_no_prefix() {
    assert_eq!(collapse_home("/usr/local/bin", "/home/alice"), "/usr/local/bin");
}

#[test]
fn collapse_home_empty_home() {
    assert_eq!(collapse_home("/usr/local/bin", ""), "/usr/local/bin");
}

#[test]
fn collapse_home_shorter_path() {
    assert_eq!(collapse_home("/home", "/home/alice"), "/home");
}

#[test]
fn shorten_keeps_last_level() {
    assert_eq!(shorten_path("~/projects/foo"), "~/p/foo");
}

#[test]
fn shorten_root_and_lone_tilde() {
    assert_eq!(shorten_path("/"), "/");
    assert_eq!(shorten_path("~"), "~");
    assert_eq!(shorten_path(""), "");
}

#[test]
fn shorten_keeps_dots() {
    assert_eq!(shorten_path("~/.config/htop"), "~/.c/htop");
}

#[test]
fn shorten_trailing_slash() {
    assert_eq!(shorten_path("/usr/local/share/"), "/u/l/s/");
}

#[test]
fn shorten_multibyte_levels() {
    assert_eq!(shorten_path("/héllo/wörld/datei"), "/h/w/datei");
}

#[test]
fn shorten_agrees_with_the_original_transform() {
    let paths = [
        "/",
        "~",
        "",
        "/home/alice/projects/foo",
        "~/projects/foo",
        "~/.config/nvim/lua",
        "/usr/local/share/fonts/",
        "a.b.c/d/e",
        "x~y/z/w",
        "/héllo/wörld/datei",
        "//double//slash",
        "relative/path/here",
    ];
    for p in paths {
        assert_eq!(shorten_path(p), tico::tico(p, None), "path {:?}", p);
    }
}

#[test]
fn shorten_twice_is_shorten_once() {
    let paths = [
        "/home/alice/projects/foo",
        "~/.config/nvim/lua",
        "/usr/local/share/fonts/",
        "a.b.c/d/e",
        "x~y/z/w",
        "//double//slash",
        "~",
        "",
    ];
    for p in paths {
        let once = shorten_path(p);
        assert_eq!(shorten_path(&once), once, "path {:?}", p);
    }
}

#[test]
fn present_full_path_with_tilde() {
    let opts = PresentationOptions {
        tilde: TildeMode::CollapseHome,
        shorten: false,
        color: ColorName::White,
    };
    let styled = present("/home/alice/projects/foo", "/home/alice", &opts);
    assert_eq!(styled.text, "~/projects/foo");
    assert_eq!(styled.color, ColorName::White);
    assert!(!styled.dim);
}

#[test]
fn present_shortened_path_with_tilde() {
    let opts = PresentationOptions {
        tilde: TildeMode::CollapseHome,
        shorten: true,
        color: ColorName::White,
    };
    let styled = present("/home/alice/projects/foo", "/home/alice", &opts);
    assert_eq!(styled.text, "~/p/foo");
}

#[test]
fn present_literal_keeps_path() {
    let opts = PresentationOptions {
        tilde: TildeMode::KeepLiteral,
        shorten: false,
        color: ColorName::Cyan,
    };
    let styled = present("/home/alice/projects/foo", "/home/alice", &opts);
    assert_eq!(styled.text, "/home/alice/projects/foo");
    assert_eq!(styled.color, ColorName::Cyan);
}
