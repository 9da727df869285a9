//! Inline keyboards: rows of buttons.
use vstd::prelude::*;

verus! {

/// What pressing a button does.
#[derive(Debug)]
pub enum ButtonKind {
    /// Sends the payload back to the bot.
    Callback(String),
    /// Opens the URL.
    Url(String),
}

/// A labelled button.
#[derive(Debug)]
pub struct Button {
    pub text: String,
    pub kind: ButtonKind,
}

/// A button as text: its label, its payload or URL, and whether it opens a URL.
pub struct ButtonView {
    pub text: Seq<char>,
    pub target: Seq<char>,
    pub url: bool,
}

impl View for Button {
    type V = ButtonView;

    open spec fn view(&self) -> ButtonView {
        match self.kind {
            ButtonKind::Callback(p) => ButtonView { text: self.text@, target: p@, url: false },
            ButtonKind::Url(u) => ButtonView { text: self.text@, target: u@, url: true },
        }
    }
}

/// A button that sends `payload` back to the bot.
pub open spec fn callback_view(text: Seq<char>, payload: Seq<char>) -> ButtonView {
    ButtonView { text, target: payload, url: false }
}

/// Labels longer than this many characters get a row of their own.
pub const LONG_LABEL: usize = 21;

/// Rows of buttons, top to bottom.
pub type Keyboard = Vec<Vec<Button>>;

/// The views of a sequence of buttons.
pub open spec fn views(s: Seq<Button>) -> Seq<ButtonView> {
    s.map_values(|b: Button| b@)
}

/// The rows of a keyboard as views.
pub open spec fn rows_of(k: Seq<Vec<Button>>) -> Seq<Seq<ButtonView>> {
    k.map_values(|r: Vec<Button>| views(r@))
}

/// Whether a button's label is long.
pub open spec fn is_long(b: ButtonView) -> bool {
    b.text.len() > LONG_LABEL
}

/// The buttons with long labels, in order.
pub open spec fn long_ones(s: Seq<ButtonView>) -> Seq<ButtonView>
    decreases s.len(),
{
    if s.len() == 0 {
        s
    } else if is_long(s.last()) {
        long_ones(s.drop_last()).push(s.last())
    } else {
        long_ones(s.drop_last())
    }
}

/// The buttons with short labels, in order.
pub open spec fn short_ones(s: Seq<ButtonView>) -> Seq<ButtonView>
    decreases s.len(),
{
    if s.len() == 0 {
        s
    } else if !is_long(s.last()) {
        short_ones(s.drop_last()).push(s.last())
    } else {
        short_ones(s.drop_last())
    }
}

/// One row for each button.
pub open spec fn single_rows(s: Seq<ButtonView>) -> Seq<Seq<ButtonView>> {
    Seq::new(s.len(), |i: int| seq![s[i]])
}

/// Rows of two consecutive buttons; an odd last one is left out.
pub open spec fn pair_rows(s: Seq<ButtonView>) -> Seq<Seq<ButtonView>> {
    Seq::new(s.len() / 2, |i: int| seq![s[2 * i], s[2 * i + 1]])
}

/// Long buttons one per row, short ones two per row, and a last row that holds
/// an odd short one out, if any, then `back`.
pub open spec fn paired_layout(s: Seq<ButtonView>, back: ButtonView) -> Seq<Seq<ButtonView>> {
    let short = short_ones(s);
    let last = if short.len() % 2 == 1 {
        seq![short.last(), back]
    } else {
        seq![back]
    };
    single_rows(long_ones(s)) + pair_rows(short) + seq![last]
}

/// Each button in a row of its own, then `back` in the last row.
pub open spec fn column_layout(s: Seq<ButtonView>, back: ButtonView) -> Seq<Seq<ButtonView>> {
    single_rows(s.push(back))
}

proof fn lemma_views_remove_first(s: Seq<Button>)
    requires
        s.len() > 0,
    ensures
        views(s.remove(0)) == views(s).subrange(1, s.len() as int),
        views(s)[0] == s[0]@,
{
    assert(views(s.remove(0)) =~= views(s).subrange(1, s.len() as int));
}

proof fn lemma_push_row(rows: Seq<Vec<Button>>, row: Vec<Button>)
    ensures
        rows_of(rows.push(row)) == rows_of(rows).push(views(row@)),
{
    assert(rows_of(rows.push(row)) =~= rows_of(rows).push(views(row@)));
}

/// Lays out `buttons` one per row and `back` below them.
pub fn column_keyboard(buttons: Vec<Button>, back: Button) -> (r: Keyboard)
    ensures
        rows_of(r@) == column_layout(views(buttons@), back@),
{
    let ghost src = views(buttons@).push(back@);
    let mut rest = buttons;
    rest.push(back);
    assert(views(rest@) =~= src);
    let mut rows: Keyboard = Vec::new();
    while rest.len() > 0
        invariant
            rows@.len() + rest@.len() == src.len(),
            views(rest@) == src.subrange(rows@.len() as int, src.len() as int),
            rows_of(rows@) == single_rows(src.subrange(0, rows@.len() as int)),
        decreases rest@.len(),
    {
        let ghost n = rows@.len() as int;
        let ghost before = rows@;
        assert(views(rest@)[0] == src[n]);
        proof {
            lemma_views_remove_first(rest@);
        }
        let b = rest.remove(0);
        assert(views(rest@) =~= src.subrange(n + 1, src.len() as int));
        let mut row: Vec<Button> = Vec::new();
        row.push(b);
        assert(views(row@) =~= seq![src[n]]);
        rows.push(row);
        proof {
            lemma_push_row(before, row);
            assert(single_rows(src.subrange(0, n + 1)) =~= single_rows(src.subrange(0, n)).push(seq![src[n]]));
        }
    }
    assert(src.subrange(0, src.len() as int) =~= src);
    rows
}

/// Splits `buttons` into those with long labels and those with short ones,
/// each in their order.
pub fn split_by_length(buttons: Vec<Button>) -> (r: (Vec<Button>, Vec<Button>))
    ensures
        views(r.0@) == long_ones(views(buttons@)),
        views(r.1@) == short_ones(views(buttons@)),
{
    let ghost s = views(buttons@);
    let total = buttons.len();
    let mut rest = buttons;
    let mut long: Vec<Button> = Vec::new();
    let mut short: Vec<Button> = Vec::new();
    let mut k: usize = 0;
    while rest.len() > 0
        invariant
            k + rest@.len() == s.len(),
            s.len() == total,
            views(rest@) == s.subrange(k as int, s.len() as int),
            views(long@) == long_ones(s.subrange(0, k as int)),
            views(short@) == short_ones(s.subrange(0, k as int)),
        decreases rest@.len(),
    {
        assert(views(rest@)[0] == s[k as int]);
        proof {
            lemma_views_remove_first(rest@);
        }
        let b = rest.remove(0);
        assert(views(rest@) =~= s.subrange(k + 1, s.len() as int));
        proof {
            let t = s.subrange(0, k + 1);
            assert(t.drop_last() =~= s.subrange(0, k as int));
            assert(t.last() == b@);
        }
        let ghost lo = long@;
        let ghost sh = short@;
        if b.text.as_str().unicode_len() > LONG_LABEL {
            long.push(b);
            assert(views(long@) =~= views(lo).push(b@));
        } else {
            short.push(b);
            assert(views(short@) =~= views(sh).push(b@));
        }
        k = k + 1;
    }
    assert(s.subrange(0, s.len() as int) =~= s);
    (long, short)
}

/// Lays out long buttons one per row and short ones two per row; an odd short
/// one out shares the last row with `back`.
pub fn paired_keyboard(buttons: Vec<Button>, back: Button) -> (r: Keyboard)
    ensures
        rows_of(r@) == paired_layout(views(buttons@), back@),
{
    let ghost src = views(buttons@);
    let (mut long, mut short) = split_by_length(buttons);
    let ghost ls = views(long@);
    let ghost ss = views(short@);
    let mut rows: Keyboard = Vec::new();
    while long.len() > 0
        invariant
            rows@.len() + long@.len() == ls.len(),
            views(long@) == ls.subrange(rows@.len() as int, ls.len() as int),
            rows_of(rows@) == single_rows(ls.subrange(0, rows@.len() as int)),
        decreases long@.len(),
    {
        let ghost n = rows@.len() as int;
        let ghost before = rows@;
        assert(views(long@)[0] == ls[n]);
        proof {
            lemma_views_remove_first(long@);
        }
        let b = long.remove(0);
        assert(views(long@) =~= ls.subrange(n + 1, ls.len() as int));
        let mut row: Vec<Button> = Vec::new();
        row.push(b);
        assert(views(row@) =~= seq![ls[n]]);
        rows.push(row);
        proof {
            lemma_push_row(before, row);
            assert(single_rows(ls.subrange(0, n + 1)) =~= single_rows(ls.subrange(0, n)).push(seq![ls[n]]));
        }
    }
    assert(ls.subrange(0, ls.len() as int) =~= ls);
    let ghost nl = rows@.len();
    let ns = short.len();
    let mut p: usize = 0;
    while short.len() >= 2
        invariant
            rows@.len() == nl + p,
            2 * p + short@.len() == ss.len(),
            ss.len() == ns,
            views(short@) == ss.subrange(2 * p as int, ss.len() as int),
            rows_of(rows@) == single_rows(ls) + pair_rows(ss.subrange(0, 2 * p as int)),
        decreases short@.len(),
    {
        let ghost q = p as int;
        let ghost before = rows@;
        assert(views(short@)[0] == ss[2 * q]);
        assert(views(short@)[1] == ss[2 * q + 1]);
        proof {
            lemma_views_remove_first(short@);
        }
        let a = short.remove(0);
        proof {
            lemma_views_remove_first(short@);
        }
        let b = short.remove(0);
        assert(views(short@) =~= ss.subrange(2 * q + 2, ss.len() as int));
        let mut row: Vec<Button> = Vec::new();
        row.push(a);
        row.push(b);
        assert(views(row@) =~= seq![ss[2 * q], ss[2 * q + 1]]);
        rows.push(row);
        proof {
            lemma_push_row(before, row);
            assert(pair_rows(ss.subrange(0, 2 * q + 2)) =~= pair_rows(ss.subrange(0, 2 * q)).push(
                seq![ss[2 * q], ss[2 * q + 1]],
            ));
            assert(single_rows(ls) + pair_rows(ss.subrange(0, 2 * q + 2)) =~= (single_rows(ls) + pair_rows(
                ss.subrange(0, 2 * q),
            )).push(seq![ss[2 * q], ss[2 * q + 1]]));
        }
        p = p + 1;
    }
    let mut last: Vec<Button> = Vec::new();
    if short.len() == 1 {
        assert(views(short@)[0] == ss.last());
        proof {
            lemma_views_remove_first(short@);
        }
        let odd = short.remove(0);
        last.push(odd);
        assert(pair_rows(ss.subrange(0, 2 * p as int)) =~= pair_rows(ss));
    } else {
        assert(ss.subrange(0, 2 * p as int) =~= ss);
    }
    let ghost back_view = back@;
    last.push(back);
    let ghost before = rows@;
    let ghost tail = views(last@);
    proof {
        if ss.len() % 2 == 1 {
            assert(tail =~= seq![ss.last(), back_view]);
        } else {
            assert(tail =~= seq![back_view]);
        }
    }
    rows.push(last);
    proof {
        lemma_push_row(before, last);
        assert(rows_of(rows@) =~= paired_layout(src, back_view));
    }
    rows
}

} // verus!
