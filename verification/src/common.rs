//! What every piece of a query shares: the text it stands for and the way
//! that text is written out.
use vstd::prelude::*;

pub mod join;
pub mod tuples;

verus! {

/// A string that lives as long as the program: a name or a keyword.
#[allow(non_camel_case_types)]
pub type sstr = &'static str;

/// A value that can write itself at the end of a buffer.
///
/// A rendered piece of SQL need not be a string: it may hold further pieces
/// and write them in turn, so that characters are only produced once, into
/// the buffer of the outermost caller.
pub trait Render {
    /// The characters that this value writes.
    spec fn text(&self) -> Seq<char>;

    /// Appends `self.text()` to `out` and leaves what `out` held in place.
    fn render(&self, out: &mut String)
        ensures
            final(out)@ == old(out)@ + self.text(),
    ;
}

/// Types that can be used to generate SQL.
///
/// What the SQL of a value reads is part of this trait, so that the text of
/// a query can be stated from the texts of its parts. A table gets its
/// implementation from `Selectable`, by giving its name.
pub trait ToSql {
    /// The rendered form. It can be written out, but is not necessarily a
    /// string.
    type Sql: Render;

    /// The SQL text of this value.
    spec fn sql_text(&self) -> Seq<char>;

    /// Returns the SQL for this value.
    fn sql(&self) -> (r: Self::Sql)
        ensures
            r.text() == self.sql_text(),
    ;
}

/// The things that can be projected from a source `Src` (probably a table).
pub trait Projection<Src>: ToSql {
    /// The Rust type of a projected value.
    type Value;
}

/// The decimal digit for a number below ten.
pub open spec fn digit_char(d: nat) -> char {
    if d == 0 {
        '0'
    } else if d == 1 {
        '1'
    } else if d == 2 {
        '2'
    } else if d == 3 {
        '3'
    } else if d == 4 {
        '4'
    } else if d == 5 {
        '5'
    } else if d == 6 {
        '6'
    } else if d == 7 {
        '7'
    } else if d == 8 {
        '8'
    } else {
        '9'
    }
}

/// A natural number in decimal, without leading zeros.
pub open spec fn nat_text(n: nat) -> Seq<char>
    decreases n,
{
    if n < 10 {
        seq![digit_char(n)]
    } else {
        nat_text(n / 10) + seq![digit_char(n % 10)]
    }
}

/// An integer in decimal: a minus sign before a negative number, no sign
/// otherwise.
pub open spec fn int_text(n: int) -> Seq<char> {
    if n < 0 {
        seq!['-'] + nat_text((-n) as nat)
    } else {
        nat_text(n as nat)
    }
}

/// The text of the SQL null value.
pub open spec fn null_text() -> Seq<char> {
    seq!['N', 'U', 'L', 'L']
}

fn digit_str(d: u64) -> (s: &'static str)
    requires
        d < 10,
    ensures
        s@ == seq![digit_char(d as nat)],
{
    proof {
        reveal_strlit("0");
        reveal_strlit("1");
        reveal_strlit("2");
        reveal_strlit("3");
        reveal_strlit("4");
        reveal_strlit("5");
        reveal_strlit("6");
        reveal_strlit("7");
        reveal_strlit("8");
        reveal_strlit("9");
    }
    let s = if d == 0 {
        "0"
    } else if d == 1 {
        "1"
    } else if d == 2 {
        "2"
    } else if d == 3 {
        "3"
    } else if d == 4 {
        "4"
    } else if d == 5 {
        "5"
    } else if d == 6 {
        "6"
    } else if d == 7 {
        "7"
    } else if d == 8 {
        "8"
    } else {
        "9"
    };
    assert(s@ =~= seq![digit_char(d as nat)]);
    s
}

fn render_nat(n: u64, out: &mut String)
    ensures
        final(out)@ == old(out)@ + nat_text(n as nat),
    decreases n,
{
    if n >= 10 {
        render_nat(n / 10, out);
    }
    out.append(digit_str(n % 10));
    assert(final(out)@ =~= old(out)@ + nat_text(n as nat));
}

impl Render for &'static str {
    open spec fn text(&self) -> Seq<char> {
        self@
    }

    fn render(&self, out: &mut String) {
        out.append(*self);
    }
}

impl Render for String {
    open spec fn text(&self) -> Seq<char> {
        self@
    }

    fn render(&self, out: &mut String) {
        out.append(self.as_str());
    }
}

impl Render for i64 {
    open spec fn text(&self) -> Seq<char> {
        int_text(*self as int)
    }

    fn render(&self, out: &mut String) {
        let n: i64 = *self;
        if n < 0 {
            proof {
                reveal_strlit("-");
            }
            out.append("-");
            // -(n + 1) fits also where -n does not.
            let below: i64 = -(n + 1);
            let magnitude: u64 = below as u64 + 1;
            render_nat(magnitude, out);
            assert(final(out)@ =~= old(out)@ + int_text(n as int));
        } else {
            render_nat(n as u64, out);
        }
    }
}

impl ToSql for i64 {
    type Sql = i64;

    open spec fn sql_text(&self) -> Seq<char> {
        int_text(*self as int)
    }

    fn sql(&self) -> i64 {
        *self
    }
}

impl ToSql for String {
    type Sql = String;

    /// The string as it is: nothing in it is escaped.
    open spec fn sql_text(&self) -> Seq<char> {
        self@
    }

    fn sql(&self) -> String {
        self.clone()
    }
}

/// The rendered form of an optional value: that of the value it holds, or
/// the SQL null.
pub struct OptionT<T: ToSql>(pub Option<T::Sql>);

impl<T: ToSql> Render for OptionT<T> {
    open spec fn text(&self) -> Seq<char> {
        match self.0 {
            Some(a) => a.text(),
            None => null_text(),
        }
    }

    fn render(&self, out: &mut String) {
        match &self.0 {
            Some(a) => a.render(out),
            None => {
                proof {
                    reveal_strlit("NULL");
                }
                out.append("NULL");
                assert(final(out)@ =~= old(out)@ + null_text());
            },
        }
    }
}

impl<T: ToSql> ToSql for Option<T> {
    type Sql = OptionT<T>;

    open spec fn sql_text(&self) -> Seq<char> {
        match self {
            Some(a) => a.sql_text(),
            None => null_text(),
        }
    }

    fn sql(&self) -> OptionT<T> {
        match self {
            Some(a) => OptionT(Some(a.sql())),
            None => OptionT(None),
        }
    }
}

} // verus!
