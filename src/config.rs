use vstd::prelude::*;
use vstd::string::*;

use crate::text::same_text;

verus! {

/// The settings read from the tree's `.config` file. Each defaults to the
/// empty string.
#[derive(Debug)]
pub struct FuchsiaConfig {
    pub fuchsia_build_dir: String,
    pub fuchsia_variant: String,
    pub fuchsia_arch: String,
    pub zircon_project: String,
}

/// A `FuchsiaConfig` as seen by contracts.
pub struct ConfigView {
    pub build_dir: Seq<char>,
    pub variant: Seq<char>,
    pub arch: Seq<char>,
    pub zircon_project: Seq<char>,
}

impl View for FuchsiaConfig {
    type V = ConfigView;

    open spec fn view(&self) -> ConfigView {
        ConfigView {
            build_dir: self.fuchsia_build_dir@,
            variant: self.fuchsia_variant@,
            arch: self.fuchsia_arch@,
            zircon_project: self.zircon_project@,
        }
    }
}

pub open spec fn empty_config() -> ConfigView {
    ConfigView {
        build_dir: Seq::empty(),
        variant: Seq::empty(),
        arch: Seq::empty(),
        zircon_project: Seq::empty(),
    }
}

/// The first index at or after `i` that holds `c`, or the length of `t`.
pub open spec fn find_from(t: Seq<char>, c: char, i: int) -> int
    decreases t.len() - i,
{
    if i >= t.len() {
        t.len() as int
    } else if t[i] == c {
        i
    } else {
        find_from(t, c, i + 1)
    }
}

pub open spec fn is_blank(c: char) -> bool {
    c == ' ' || c == '\t'
}

pub open spec fn trim_start_spec(s: Seq<char>) -> Seq<char>
    decreases s.len(),
{
    if s.len() > 0 && is_blank(s[0]) {
        trim_start_spec(s.drop_first())
    } else {
        s
    }
}

pub open spec fn trim_end_spec(s: Seq<char>) -> Seq<char>
    decreases s.len(),
{
    if s.len() > 0 && is_blank(s.last()) {
        trim_end_spec(s.drop_last())
    } else {
        s
    }
}

/// `s` without blanks at either end.
pub open spec fn trim_spec(s: Seq<char>) -> Seq<char> {
    trim_end_spec(trim_start_spec(s))
}

/// `s` without one leading and one trailing double quote, where present.
pub open spec fn unquote_spec(s: Seq<char>) -> Seq<char> {
    let a = if s.len() > 0 && s[0] == '"' {
        s.drop_first()
    } else {
        s
    };
    if a.len() > 0 && a.last() == '"' {
        a.drop_last()
    } else {
        a
    }
}

/// A line without its carriage return, if it ends with one.
pub open spec fn strip_cr(l: Seq<char>) -> Seq<char> {
    if l.len() > 0 && l.last() == '\r' {
        l.drop_last()
    } else {
        l
    }
}

/// The configuration after reading one line: a line `KEY=VALUE` whose
/// trimmed key is one of the four known names sets that field to the
/// unquoted value; any other line leaves the configuration as it was.
pub open spec fn apply_line(cfg: ConfigView, line: Seq<char>) -> ConfigView {
    let l = strip_cr(line);
    let eq = find_from(l, '=', 0);
    if eq >= l.len() {
        cfg
    } else {
        let key = trim_spec(l.take(eq));
        let value = unquote_spec(l.skip(eq + 1));
        if key == "FUCHSIA_BUILD_DIR"@ {
            ConfigView { build_dir: value, ..cfg }
        } else if key == "FUCHSIA_VARIANT"@ {
            ConfigView { variant: value, ..cfg }
        } else if key == "FUCHSIA_ARCH"@ {
            ConfigView { arch: value, ..cfg }
        } else if key == "ZIRCON_PROJECT"@ {
            ConfigView { zircon_project: value, ..cfg }
        } else {
            cfg
        }
    }
}

/// Reads `t` from index `i` on, the current line having started at
/// `line_start`, each line applied in turn to `cfg`.
pub open spec fn parse_from(t: Seq<char>, i: int, line_start: int, cfg: ConfigView) -> ConfigView
    decreases t.len() - i,
{
    if i >= t.len() {
        apply_line(cfg, t.subrange(line_start, t.len() as int))
    } else if t[i] == '\n' {
        parse_from(t, i + 1, i + 1, apply_line(cfg, t.subrange(line_start, i)))
    } else {
        parse_from(t, i + 1, line_start, cfg)
    }
}

/// The configuration that the text `t` of a `.config` file gives.
pub open spec fn parse_config(t: Seq<char>) -> ConfigView {
    parse_from(t, 0, 0, empty_config())
}

fn blank(c: char) -> (r: bool)
    ensures
        r == is_blank(c),
{
    c == ' ' || c == '\t'
}

fn trimmed(s: &str) -> (r: &str)
    ensures
        r@ == trim_spec(s@),
{
    let n = s.unicode_len();
    let mut a: usize = 0;
    assert(s@.subrange(0, n as int) =~= s@);
    while a < n && blank(s.get_char(a))
        invariant
            n == s@.len(),
            a <= n,
            trim_start_spec(s@) == trim_start_spec(s@.subrange(a as int, n as int)),
        decreases n - a,
    {
        assert(s@.subrange(a + 1, n as int) =~= s@.subrange(a as int, n as int).drop_first());
        a = a + 1;
    }
    let ghost mid = s@.subrange(a as int, n as int);
    assert(trim_start_spec(mid) == mid);
    let mut b: usize = n;
    while b > a && blank(s.get_char(b - 1))
        invariant
            n == s@.len(),
            a <= b <= n,
            mid == s@.subrange(a as int, n as int),
            trim_end_spec(mid) == trim_end_spec(s@.subrange(a as int, b as int)),
        decreases b - a,
    {
        assert(s@.subrange(a as int, b - 1) =~= s@.subrange(a as int, b as int).drop_last());
        b = b - 1;
    }
    s.substring_char(a, b)
}

fn unquote(s: &str) -> (r: &str)
    ensures
        r@ == unquote_spec(s@),
{
    let n = s.unicode_len();
    let a: usize = if n > 0 && s.get_char(0) == '"' {
        1
    } else {
        0
    };
    let b: usize = if n > a && s.get_char(n - 1) == '"' {
        n - 1
    } else {
        n
    };
    let r = s.substring_char(a, b);
    assert(r@ =~= unquote_spec(s@));
    r
}

impl FuchsiaConfig {
    /// Applies one line of a `.config` file.
    fn apply(&mut self, line: &str)
        ensures
            final(self)@ == apply_line(old(self)@, line@),
    {
        let n = line.unicode_len();
        let end: usize = if n > 0 && line.get_char(n - 1) == '\r' {
            n - 1
        } else {
            n
        };
        let body = line.substring_char(0, end);
        assert(body@ =~= strip_cr(line@));
        let mut j: usize = 0;
        while j < end && body.get_char(j) != '='
            invariant
                end == body@.len(),
                j <= end,
                find_from(body@, '=', 0) == find_from(body@, '=', j as int),
            decreases end - j,
        {
            j = j + 1;
        }
        if j == end {
            return;
        }
        let key = trimmed(body.substring_char(0, j));
        let value = String::from_str(unquote(body.substring_char(j + 1, end)));
        if same_text(key, "FUCHSIA_BUILD_DIR") {
            self.fuchsia_build_dir = value;
        } else if same_text(key, "FUCHSIA_VARIANT") {
            self.fuchsia_variant = value;
        } else if same_text(key, "FUCHSIA_ARCH") {
            self.fuchsia_arch = value;
        } else if same_text(key, "ZIRCON_PROJECT") {
            self.zircon_project = value;
        }
    }

    /// Reads the text of a `.config` file. Unknown keys and lines without
    /// `=` are skipped.
    pub fn new(contents: &str) -> (r: FuchsiaConfig)
        ensures
            r@ == parse_config(contents@),
    {
        let mut config = FuchsiaConfig {
            fuchsia_build_dir: String::new(),
            fuchsia_variant: String::new(),
            fuchsia_arch: String::new(),
            zircon_project: String::new(),
        };
        assert(config@ =~= empty_config());
        let n = contents.unicode_len();
        let mut i: usize = 0;
        let mut line_start: usize = 0;
        while i < n
            invariant
                n == contents@.len(),
                line_start <= i <= n,
                parse_config(contents@) == parse_from(contents@, i as int, line_start as int, config@),
            decreases n - i,
        {
            if contents.get_char(i) == '\n' {
                config.apply(contents.substring_char(line_start, i));
                line_start = i + 1;
            }
            i = i + 1;
        }
        config.apply(contents.substring_char(line_start, n));
        config
    }

    /// Whether the build is a release build: every variant but `debug` is.
    pub fn is_release(&self) -> (r: bool)
        ensures
            r == (self.fuchsia_variant@ != "debug"@),
    {
        !same_text(self.fuchsia_variant.as_str(), "debug")
    }
}

} // verus!
