use vstd::prelude::*;

verus! {

/// The eight ANSI palette colors plus the terminal default.
#[derive(PartialEq, Eq, Structural, Clone, Copy, Hash, Debug)]
pub enum Color {
    Black,
    Red,
    Green,
    Yellow,
    Blue,
    Magenta,
    Cyan,
    White,
    Default,
}

/// The digit that selects `c` in both the foreground (`3x`) and the
/// background (`4x`) SGR parameter.
pub open spec fn color_digit(c: Color) -> char {
    match c {
        Color::Black => '0',
        Color::Red => '1',
        Color::Green => '2',
        Color::Yellow => '3',
        Color::Blue => '4',
        Color::Magenta => '5',
        Color::Cyan => '6',
        Color::White => '7',
        Color::Default => '9',
    }
}

/// SGR parameter that sets the foreground to `c`.
pub open spec fn spec_fg_code(c: Color) -> Seq<char> {
    seq!['3', color_digit(c)]
}

/// SGR parameter that sets the background to `c`.
pub open spec fn spec_bg_code(c: Color) -> Seq<char> {
    seq!['4', color_digit(c)]
}

impl Color {
    /// The SGR parameter selecting this color as foreground ("30".."37", "39").
    pub fn fg_code(&self) -> (code: &'static str)
        ensures
            code@ == spec_fg_code(*self),
    {
        match self {
            Color::Black => {
                proof { reveal_strlit("30"); }
                "30"
            },
            Color::Red => {
                proof { reveal_strlit("31"); }
                "31"
            },
            Color::Green => {
                proof { reveal_strlit("32"); }
                "32"
            },
            Color::Yellow => {
                proof { reveal_strlit("33"); }
                "33"
            },
            Color::Blue => {
                proof { reveal_strlit("34"); }
                "34"
            },
            Color::Magenta => {
                proof { reveal_strlit("35"); }
                "35"
            },
            Color::Cyan => {
                proof { reveal_strlit("36"); }
                "36"
            },
            Color::White => {
                proof { reveal_strlit("37"); }
                "37"
            },
            Color::Default => {
                proof { reveal_strlit("39"); }
                "39"
            },
        }
    }

    /// The SGR parameter selecting this color as background ("40".."47", "49").
    pub fn bg_code(&self) -> (code: &'static str)
        ensures
            code@ == spec_bg_code(*self),
    {
        match self {
            Color::Black => {
                proof { reveal_strlit("40"); }
                "40"
            },
            Color::Red => {
                proof { reveal_strlit("41"); }
                "41"
            },
            Color::Green => {
                proof { reveal_strlit("42"); }
                "42"
            },
            Color::Yellow => {
                proof { reveal_strlit("43"); }
                "43"
            },
            Color::Blue => {
                proof { reveal_strlit("44"); }
                "44"
            },
            Color::Magenta => {
                proof { reveal_strlit("45"); }
                "45"
            },
            Color::Cyan => {
                proof { reveal_strlit("46"); }
                "46"
            },
            Color::White => {
                proof { reveal_strlit("47"); }
                "47"
            },
            Color::Default => {
                proof { reveal_strlit("49"); }
                "49"
            },
        }
    }
}

/// Resets every SGR attribute.
pub const RESET: &'static str = "\x1b[0m";

/// Turns bold on.
pub const BOLD: &'static str = "\x1b[1m";

/// Joins SGR parameters with `;`, the separator of the SGR grammar.
pub open spec fn join_codes(codes: Seq<Seq<char>>) -> Seq<char>
    decreases codes.len(),
{
    if codes.len() == 0 {
        seq![]
    } else if codes.len() == 1 {
        codes[0]
    } else {
        join_codes(codes.drop_last()) + seq![';'] + codes.last()
    }
}

/// Builds one SGR escape sequence from a set of display attributes.
#[derive(Clone, Copy, Debug, PartialEq, Eq, Structural)]
pub struct AnsiBuilder {
    fg: Option<Color>,
    bg: Option<Color>,
    bold: bool,
    dim: bool,
    italics: bool,
}

impl AnsiBuilder {
    /// The foreground color that the sequence will select, if any.
    pub closed spec fn fg_color(self) -> Option<Color> {
        self.fg
    }

    /// The background color that the sequence will select, if any.
    pub closed spec fn bg_color(self) -> Option<Color> {
        self.bg
    }

    /// Whether the sequence turns bold on.
    pub closed spec fn is_bold(self) -> bool {
        self.bold
    }

    /// Whether the sequence turns faint ("dim") on.
    pub closed spec fn is_dim(self) -> bool {
        self.dim
    }

    /// Whether the sequence turns italics on.
    pub closed spec fn is_italics(self) -> bool {
        self.italics
    }

    /// A builder with no attribute set.
    pub closed spec fn plain() -> Self {
        AnsiBuilder { fg: None, bg: None, bold: false, dim: false, italics: false }
    }

    /// `self` with its foreground set to `c`.
    pub closed spec fn with_fg(self, c: Color) -> Self {
        AnsiBuilder { fg: Some(c), ..self }
    }

    /// `self` with its background set to `c`.
    pub closed spec fn with_bg(self, c: Color) -> Self {
        AnsiBuilder { bg: Some(c), ..self }
    }

    /// `self` with bold on.
    pub closed spec fn with_bold(self) -> Self {
        AnsiBuilder { bold: true, ..self }
    }

    /// `self` with faint on.
    pub closed spec fn with_dim(self) -> Self {
        AnsiBuilder { dim: true, ..self }
    }

    /// `self` with italics on.
    pub closed spec fn with_italics(self) -> Self {
        AnsiBuilder { italics: true, ..self }
    }

    /// What the color setters change and keep.
    pub broadcast proof fn lemma_color_reads(b: Self, c: Color)
        ensures
            #![trigger b.with_fg(c)]
            #![trigger b.with_bg(c)]
            b.with_fg(c).fg_color() == Some(c) && b.with_fg(c).bg_color() == b.bg_color()
                && b.with_fg(c).is_bold() == b.is_bold() && b.with_fg(c).is_dim() == b.is_dim()
                && b.with_fg(c).is_italics() == b.is_italics(),
            b.with_bg(c).bg_color() == Some(c) && b.with_bg(c).fg_color() == b.fg_color()
                && b.with_bg(c).is_bold() == b.is_bold() && b.with_bg(c).is_dim() == b.is_dim()
                && b.with_bg(c).is_italics() == b.is_italics(),
    {
    }

    /// What the flag setters change and keep.
    pub broadcast proof fn lemma_flag_reads(b: Self)
        ensures
            #![trigger b.with_bold()]
            #![trigger b.with_dim()]
            #![trigger b.with_italics()]
            b.with_bold().is_bold() && b.with_bold().fg_color() == b.fg_color()
                && b.with_bold().bg_color() == b.bg_color() && b.with_bold().is_dim() == b.is_dim()
                && b.with_bold().is_italics() == b.is_italics(),
            b.with_dim().is_dim() && b.with_dim().fg_color() == b.fg_color()
                && b.with_dim().bg_color() == b.bg_color() && b.with_dim().is_bold() == b.is_bold()
                && b.with_dim().is_italics() == b.is_italics(),
            b.with_italics().is_italics() && b.with_italics().fg_color() == b.fg_color()
                && b.with_italics().bg_color() == b.bg_color()
                && b.with_italics().is_bold() == b.is_bold()
                && b.with_italics().is_dim() == b.is_dim(),
    {
    }

    /// The plain builder has no attribute.
    pub broadcast proof fn lemma_plain_reads()
        ensures
            #[trigger] AnsiBuilder::plain().fg_color() is None,
            AnsiBuilder::plain().bg_color() is None,
            !AnsiBuilder::plain().is_bold(),
            !AnsiBuilder::plain().is_dim(),
            !AnsiBuilder::plain().is_italics(),
    {
    }

    /// A builder is determined by its attributes.
    pub proof fn lemma_ext(a: Self, b: Self)
        requires
            a.fg_color() == b.fg_color(),
            a.bg_color() == b.bg_color(),
            a.is_bold() == b.is_bold(),
            a.is_dim() == b.is_dim(),
            a.is_italics() == b.is_italics(),
        ensures
            a == b,
    {
    }
}

/// The SGR parameters of `b`, in the order in which `finish` writes them:
/// foreground, background, bold, faint, italics.
pub open spec fn sgr_codes(b: AnsiBuilder) -> Seq<Seq<char>> {
    let f = match b.fg_color() {
        Some(c) => seq![spec_fg_code(c)],
        None => Seq::<Seq<char>>::empty(),
    };
    let g = match b.bg_color() {
        Some(c) => seq![spec_bg_code(c)],
        None => Seq::<Seq<char>>::empty(),
    };
    let h = if b.is_bold() { seq![seq!['1']] } else { Seq::<Seq<char>>::empty() };
    let d = if b.is_dim() { seq![seq!['2']] } else { Seq::<Seq<char>>::empty() };
    let i = if b.is_italics() { seq![seq!['3']] } else { Seq::<Seq<char>>::empty() };
    f + g + h + d + i
}

/// The escape sequence `ESC [ p1 ; p2 ; ... m` that selects the attributes of `b`.
pub open spec fn sgr_sequence(b: AnsiBuilder) -> Seq<char> {
    seq!['\x1b', '['] + join_codes(sgr_codes(b)) + seq!['m']
}

impl Default for AnsiBuilder {
    fn default() -> (b: Self)
        ensures
            b == AnsiBuilder::plain(),
    {
        AnsiBuilder { fg: None, bg: None, bold: false, dim: false, italics: false }
    }
}

impl AnsiBuilder {
    /// A builder with no attribute set.
    pub fn new() -> (b: Self)
        ensures
            b == AnsiBuilder::plain(),
    {
        Self::default()
    }

    /// Selects `color` as foreground; a later call replaces an earlier one.
    pub fn fg(self, color: Color) -> (b: Self)
        ensures
            b == self.with_fg(color),
    {
        AnsiBuilder { fg: Some(color), ..self }
    }

    /// Selects `color` as background; a later call replaces an earlier one.
    pub fn bg(self, color: Color) -> (b: Self)
        ensures
            b == self.with_bg(color),
    {
        AnsiBuilder { bg: Some(color), ..self }
    }

    /// Turns bold on.
    pub fn bold(self) -> (b: Self)
        ensures
            b == self.with_bold(),
    {
        AnsiBuilder { bold: true, ..self }
    }

    /// Turns faint on.
    pub fn dim(self) -> (b: Self)
        ensures
            b == self.with_dim(),
    {
        AnsiBuilder { dim: true, ..self }
    }

    /// Turns italics on.
    pub fn italics(self) -> (b: Self)
        ensures
            b == self.with_italics(),
    {
        AnsiBuilder { italics: true, ..self }
    }

    /// The escape sequence that selects the attributes of this builder.
    pub fn finish(self) -> (s: String)
        ensures
            s@ == sgr_sequence(self),
    {
        let operators = self.operators();
        assert(operators@.map_values(|s: &str| s@) =~= sgr_codes(self));
        join_sgr(&operators)
    }

    /// The SGR parameters of this builder, in the order of `sgr_codes`.
    fn operators(self) -> (operators: Vec<&'static str>)
        ensures
            operators@.len() == sgr_codes(self).len(),
            forall|k: int| 0 <= k < operators@.len() ==> #[trigger] operators@[k]@ == sgr_codes(self)[k],
    {
        let mut operators: Vec<&'static str> = Vec::new();
        let ghost mut acc: Seq<Seq<char>> = Seq::empty();
        if let Some(fg) = self.fg {
            operators.push(fg.fg_code());
            proof { acc = acc.push(spec_fg_code(fg)); }
        }
        assert(operators@.map_values(|s: &str| s@) =~= acc);
        if let Some(bg) = self.bg {
            operators.push(bg.bg_code());
            proof { acc = acc.push(spec_bg_code(bg)); }
        }
        assert(operators@.map_values(|s: &str| s@) =~= acc);
        if self.bold {
            proof { reveal_strlit("1"); assert("1"@ =~= seq!['1']); }
            operators.push("1");
            proof { acc = acc.push(seq!['1']); }
        }
        assert(operators@.map_values(|s: &str| s@) =~= acc);
        if self.dim {
            proof { reveal_strlit("2"); assert("2"@ =~= seq!['2']); }
            operators.push("2");
            proof { acc = acc.push(seq!['2']); }
        }
        assert(operators@.map_values(|s: &str| s@) =~= acc);
        if self.italics {
            proof { reveal_strlit("3"); assert("3"@ =~= seq!['3']); }
            operators.push("3");
            proof { acc = acc.push(seq!['3']); }
        }
        assert(operators@.map_values(|s: &str| s@) =~= acc);
        assert(acc =~= sgr_codes(self));
        assert(forall|k: int| 0 <= k < operators@.len() ==> #[trigger] operators@[k]@
            == operators@.map_values(|s: &str| s@)[k]);
        operators
    }
}

/// `ESC [`, then the parameters joined by `;`, then `m`.
fn join_sgr(operators: &Vec<&'static str>) -> (out: String)
    ensures
        out@ == seq!['\x1b', '['] + join_codes(operators@.map_values(|s: &str| s@)) + seq!['m'],
{
    let ghost codes = operators@.map_values(|s: &str| s@);
    let mut out = String::new();
    proof { reveal_strlit("\x1b["); }
    out.append("\x1b[");
    let n = operators.len();
    let mut i: usize = 0;
    while i < n
        invariant
            n == operators.len(),
            i <= n,
            codes.len() == n,
            codes == operators@.map_values(|s: &str| s@),
            forall|k: int| 0 <= k < n ==> #[trigger] codes[k] == operators@[k]@,
            out@ == seq!['\x1b', '['] + join_codes(codes.take(i as int)),
        decreases n - i,
    {
        if i == 0 {
            out.append(operators[i]);
            assert(codes.take(1) =~= seq![codes[0]]);
        } else {
            proof { reveal_strlit(";"); }
            out.append(";");
            out.append(operators[i]);
            assert(codes.take(i + 1).drop_last() =~= codes.take(i as int));
        }
        i = i + 1;
    }
    assert(codes.take(n as int) =~= codes);
    proof { reveal_strlit("m"); }
    out.append("m");
    out
}

/// A builder with no attribute set.
pub fn ansi() -> (b: AnsiBuilder)
    ensures
        b == AnsiBuilder::plain(),
{
    AnsiBuilder::default()
}

/// The escape sequence that selects `color` as foreground and nothing else.
pub fn fg(color: Color) -> (s: String)
    ensures
        s@ == sgr_sequence(AnsiBuilder::plain().with_fg(color)),
        s@ == seq!['\x1b', '['] + spec_fg_code(color) + seq!['m'],
{
    let s = ansi().fg(color).finish();
    proof { lemma_single_code(AnsiBuilder::plain().with_fg(color), spec_fg_code(color)); }
    s
}

/// The escape sequence that selects `color` as background and nothing else.
pub fn bg(color: Color) -> (s: String)
    ensures
        s@ == sgr_sequence(AnsiBuilder::plain().with_bg(color)),
        s@ == seq!['\x1b', '['] + spec_bg_code(color) + seq!['m'],
{
    let s = ansi().bg(color).finish();
    proof { lemma_single_code(AnsiBuilder::plain().with_bg(color), spec_bg_code(color)); }
    s
}

proof fn lemma_single_code(b: AnsiBuilder, code: Seq<char>)
    requires
        sgr_codes(b) =~= seq![code],
    ensures
        sgr_sequence(b) == seq!['\x1b', '['] + code + seq!['m'],
{
}

/// Setting an attribute again keeps only the last setting: a second color
/// replaces the first, and turning a flag on twice is turning it on once.
pub proof fn lemma_last_setting_wins(b: AnsiBuilder, c1: Color, c2: Color)
    ensures
        b.with_fg(c1).with_fg(c2) == b.with_fg(c2),
        b.with_bg(c1).with_bg(c2) == b.with_bg(c2),
        b.with_bold().with_bold() == b.with_bold(),
        b.with_dim().with_dim() == b.with_dim(),
        b.with_italics().with_italics() == b.with_italics(),
{
    broadcast use AnsiBuilder::lemma_color_reads, AnsiBuilder::lemma_flag_reads;

    AnsiBuilder::lemma_ext(b.with_fg(c1).with_fg(c2), b.with_fg(c2));
    AnsiBuilder::lemma_ext(b.with_bg(c1).with_bg(c2), b.with_bg(c2));
    AnsiBuilder::lemma_ext(b.with_bold().with_bold(), b.with_bold());
    AnsiBuilder::lemma_ext(b.with_dim().with_dim(), b.with_dim());
    AnsiBuilder::lemma_ext(b.with_italics().with_italics(), b.with_italics());
}

/// Setters of different attributes commute, so the escape sequence does not
/// depend on the order of the builder calls.
pub proof fn lemma_setters_commute(b: AnsiBuilder, c: Color, d: Color)
    ensures
        b.with_fg(c).with_bg(d) == b.with_bg(d).with_fg(c),
        b.with_fg(c).with_bold() == b.with_bold().with_fg(c),
        b.with_fg(c).with_dim() == b.with_dim().with_fg(c),
        b.with_fg(c).with_italics() == b.with_italics().with_fg(c),
        b.with_bg(c).with_bold() == b.with_bold().with_bg(c),
        b.with_bg(c).with_dim() == b.with_dim().with_bg(c),
        b.with_bg(c).with_italics() == b.with_italics().with_bg(c),
        b.with_bold().with_dim() == b.with_dim().with_bold(),
        b.with_bold().with_italics() == b.with_italics().with_bold(),
        b.with_dim().with_italics() == b.with_italics().with_dim(),
{
    broadcast use AnsiBuilder::lemma_color_reads, AnsiBuilder::lemma_flag_reads;

    AnsiBuilder::lemma_ext(b.with_fg(c).with_bg(d), b.with_bg(d).with_fg(c));
    AnsiBuilder::lemma_ext(b.with_fg(c).with_bold(), b.with_bold().with_fg(c));
    AnsiBuilder::lemma_ext(b.with_fg(c).with_dim(), b.with_dim().with_fg(c));
    AnsiBuilder::lemma_ext(b.with_fg(c).with_italics(), b.with_italics().with_fg(c));
    AnsiBuilder::lemma_ext(b.with_bg(c).with_bold(), b.with_bold().with_bg(c));
    AnsiBuilder::lemma_ext(b.with_bg(c).with_dim(), b.with_dim().with_bg(c));
    AnsiBuilder::lemma_ext(b.with_bg(c).with_italics(), b.with_italics().with_bg(c));
    AnsiBuilder::lemma_ext(b.with_bold().with_dim(), b.with_dim().with_bold());
    AnsiBuilder::lemma_ext(b.with_bold().with_italics(), b.with_italics().with_bold());
    AnsiBuilder::lemma_ext(b.with_dim().with_italics(), b.with_italics().with_dim());
}

/// Each color has its own code; a background code is the foreground code of
/// the same color with `4` in place of the leading `3`, so no foreground code
/// is a background code.
pub proof fn lemma_codes_distinct(c1: Color, c2: Color)
    ensures
        c1 != c2 ==> spec_fg_code(c1) != spec_fg_code(c2),
        c1 != c2 ==> spec_bg_code(c1) != spec_bg_code(c2),
        spec_fg_code(c1) != spec_bg_code(c2),
        spec_bg_code(c1) == spec_fg_code(c1).update(0, '4'),
{
    if c1 != c2 {
        assert(spec_fg_code(c1)[1] != spec_fg_code(c2)[1]);
        assert(spec_bg_code(c1)[1] != spec_bg_code(c2)[1]);
    }
    assert(spec_fg_code(c1)[0] != spec_bg_code(c2)[0]);
    assert(spec_bg_code(c1) =~= spec_fg_code(c1).update(0, '4'));
}

/// Every builder yields a single SGR sequence `ESC [ ... m`; with no
/// attribute set, the sequence has no parameter.
pub proof fn lemma_sgr_shape(b: AnsiBuilder)
    ensures
        sgr_sequence(b).len() >= 3,
        sgr_sequence(b)[0] == '\x1b',
        sgr_sequence(b)[1] == '[',
        sgr_sequence(b).last() == 'm',
        sgr_sequence(AnsiBuilder::plain()) == seq!['\x1b', '[', 'm'],
{
    broadcast use AnsiBuilder::lemma_plain_reads;

    assert(sgr_codes(AnsiBuilder::plain()) =~= Seq::<Seq<char>>::empty());
    assert(sgr_sequence(AnsiBuilder::plain()) =~= seq!['\x1b', '[', 'm']);
}

/// The five parts of the parameter list of `b`.
spec fn fg_part(b: AnsiBuilder) -> Seq<Seq<char>> {
    match b.fg_color() {
        Some(c) => seq![spec_fg_code(c)],
        None => Seq::<Seq<char>>::empty(),
    }
}

spec fn bg_part(b: AnsiBuilder) -> Seq<Seq<char>> {
    match b.bg_color() {
        Some(c) => seq![spec_bg_code(c)],
        None => Seq::<Seq<char>>::empty(),
    }
}

spec fn flag_part(on: bool, d: char) -> Seq<Seq<char>> {
    if on { seq![seq![d]] } else { Seq::<Seq<char>>::empty() }
}

proof fn lemma_parts(b: AnsiBuilder)
    ensures
        sgr_codes(b) == fg_part(b) + bg_part(b) + flag_part(b.is_bold(), '1') + flag_part(
            b.is_dim(),
            '2',
        ) + flag_part(b.is_italics(), '3'),
{
    assert(sgr_codes(b) =~= fg_part(b) + bg_part(b) + flag_part(b.is_bold(), '1') + flag_part(
        b.is_dim(),
        '2',
    ) + flag_part(b.is_italics(), '3'));
}

/// Where each parameter stands: index by index, the list holds the color
/// codes first, then the single-digit flags.
proof fn lemma_code_at(b: AnsiBuilder, k: int)
    requires
        0 <= k < sgr_codes(b).len(),
    ensures
        k < fg_part(b).len() ==> sgr_codes(b)[k] == spec_fg_code(b.fg_color()->0),
        fg_part(b).len() <= k < fg_part(b).len() + bg_part(b).len() ==> sgr_codes(b)[k]
            == spec_bg_code(b.bg_color()->0),
        k >= fg_part(b).len() + bg_part(b).len() ==> sgr_codes(b)[k].len() == 1,
        k >= fg_part(b).len() + bg_part(b).len() ==> (sgr_codes(b)[k] == seq!['1'] || sgr_codes(
            b,
        )[k] == seq!['2'] || sgr_codes(b)[k] == seq!['3']),
        k >= fg_part(b).len() + bg_part(b).len() && sgr_codes(b)[k] == seq!['1'] ==> b.is_bold(),
        k >= fg_part(b).len() + bg_part(b).len() && sgr_codes(b)[k] == seq!['2'] ==> b.is_dim(),
        k >= fg_part(b).len() + bg_part(b).len() && sgr_codes(b)[k] == seq!['3'] ==> b.is_italics(),
{
    lemma_parts(b);
    let fp = fg_part(b);
    let gp = bg_part(b);
    let hp = flag_part(b.is_bold(), '1');
    let dp = flag_part(b.is_dim(), '2');
    let ip = flag_part(b.is_italics(), '3');
    let codes = sgr_codes(b);
    let j = k - fp.len() - gp.len();
    if k >= fp.len() + gp.len() {
        assert(codes[k] == (hp + dp + ip)[j]);
        assert(seq!['1'] != seq!['2'] && seq!['1'] != seq!['3'] && seq!['2'] != seq!['3']) by {
            assert(seq!['1'][0] != seq!['2'][0]);
            assert(seq!['1'][0] != seq!['3'][0]);
            assert(seq!['2'][0] != seq!['3'][0]);
        }
        if j < hp.len() {
            assert(codes[k] == seq!['1']);
        } else if j < hp.len() + dp.len() {
            assert(codes[k] == seq!['2']);
        } else {
            assert(codes[k] == seq!['3']);
        }
    }
}

proof fn lemma_flags_present(b: AnsiBuilder)
    ensures
        sgr_codes(b).contains(seq!['1']) <==> b.is_bold(),
        sgr_codes(b).contains(seq!['2']) <==> b.is_dim(),
        sgr_codes(b).contains(seq!['3']) <==> b.is_italics(),
{
    lemma_parts(b);
    let codes = sgr_codes(b);
    let fp = fg_part(b);
    let gp = bg_part(b);
    let hp = flag_part(b.is_bold(), '1');
    let dp = flag_part(b.is_dim(), '2');
    let ip = flag_part(b.is_italics(), '3');
    let n0: int = (fp.len() + gp.len()) as int;
    let tail = hp + dp + ip;
    assert(codes =~= (fp + gp) + tail);
    assert forall|j: int| 0 <= j < tail.len() implies codes[n0 + j] == #[trigger] tail[j] by {}
    if b.is_bold() {
        assert(tail[0] == seq!['1']);
        assert(codes[n0] == seq!['1']);
    }
    if b.is_dim() {
        assert(tail[hp.len() as int] == seq!['2']);
        assert(codes[n0 + hp.len() as int] == seq!['2']);
    }
    if b.is_italics() {
        assert(tail[(hp.len() + dp.len()) as int] == seq!['3']);
        assert(codes[n0 + (hp.len() + dp.len()) as int] == seq!['3']);
        assert(codes.contains(seq!['3']));
    }
    if codes.contains(seq!['1']) {
        let k = choose|k: int| 0 <= k < codes.len() && codes[k] == seq!['1'];
        lemma_code_at(b, k);
        assert(codes[k].len() == 1);
        assert(k >= fp.len() + gp.len());
        assert(b.is_bold());
    }
    if codes.contains(seq!['2']) {
        let k = choose|k: int| 0 <= k < codes.len() && codes[k] == seq!['2'];
        lemma_code_at(b, k);
        assert(codes[k].len() == 1);
        assert(k >= fp.len() + gp.len());
        assert(b.is_dim());
    }
    if codes.contains(seq!['3']) {
        let k = choose|k: int| 0 <= k < codes.len() && codes[k] == seq!['3'];
        lemma_code_at(b, k);
        assert(codes[k].len() == 1);
        assert(k >= fp.len() + gp.len());
        assert(b.is_italics());
    }
}

proof fn lemma_fg_present(b: AnsiBuilder, c: Color)
    ensures
        sgr_codes(b).contains(spec_fg_code(c)) <==> b.fg_color() == Some(c),
{
    lemma_parts(b);
    let codes = sgr_codes(b);
    if b.fg_color() == Some(c) {
        assert(codes[0] == spec_fg_code(c));
    }
    if codes.contains(spec_fg_code(c)) {
        let k = choose|k: int| 0 <= k < codes.len() && codes[k] == spec_fg_code(c);
        lemma_code_at(b, k);
        if k < fg_part(b).len() {
            lemma_codes_distinct(c, b.fg_color()->0);
        } else if k < fg_part(b).len() + bg_part(b).len() {
            lemma_codes_distinct(c, b.bg_color()->0);
        } else {
            assert(spec_fg_code(c).len() == 2);
        }
    }
}

proof fn lemma_bg_present(b: AnsiBuilder, c: Color)
    ensures
        sgr_codes(b).contains(spec_bg_code(c)) <==> b.bg_color() == Some(c),
{
    lemma_parts(b);
    let codes = sgr_codes(b);
    if b.bg_color() == Some(c) {
        assert(codes[fg_part(b).len() as int] == spec_bg_code(c));
    }
    if codes.contains(spec_bg_code(c)) {
        let k = choose|k: int| 0 <= k < codes.len() && codes[k] == spec_bg_code(c);
        lemma_code_at(b, k);
        if k < fg_part(b).len() {
            lemma_codes_distinct(b.fg_color()->0, c);
        } else if k < fg_part(b).len() + bg_part(b).len() {
            lemma_codes_distinct(c, b.bg_color()->0);
        } else {
            assert(spec_bg_code(c).len() == 2);
        }
    }
}

/// Each attribute shows up in the parameter list on its own: the list holds
/// the foreground code exactly when a foreground is set, the background code
/// exactly when a background is set, and `1`, `2`, `3` exactly when bold,
/// faint and italics are on, whatever the other attributes are; it holds one
/// parameter per attribute that is set and nothing else.
pub proof fn lemma_each_attribute_present(b: AnsiBuilder)
    ensures
        sgr_codes(b).contains(seq!['1']) <==> b.is_bold(),
        sgr_codes(b).contains(seq!['2']) <==> b.is_dim(),
        sgr_codes(b).contains(seq!['3']) <==> b.is_italics(),
        forall|c: Color| sgr_codes(b).contains(spec_fg_code(c)) <==> b.fg_color() == Some(c),
        forall|c: Color| sgr_codes(b).contains(spec_bg_code(c)) <==> b.bg_color() == Some(c),
        sgr_codes(b).len() == (if b.fg_color() is Some { 1int } else { 0 }) + (if b.bg_color() is Some {
            1int
        } else {
            0
        }) + (if b.is_bold() { 1int } else { 0 }) + (if b.is_dim() { 1int } else { 0 }) + (
        if b.is_italics() {
            1int
        } else {
            0
        }),
{
    lemma_parts(b);
    lemma_flags_present(b);
    assert forall|c: Color| sgr_codes(b).contains(spec_fg_code(c)) <==> b.fg_color() == Some(c) by {
        lemma_fg_present(b, c);
    }
    assert forall|c: Color| sgr_codes(b).contains(spec_bg_code(c)) <==> b.bg_color() == Some(c) by {
        lemma_bg_present(b, c);
    }
}

} // verus!
