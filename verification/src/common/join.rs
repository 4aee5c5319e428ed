//! Rendering of a fixed number of parts with a separator between them.
//!
//! A `Join` holds its parts as a tuple, of two to twenty-six members, and
//! writes each of them where it is asked to render: no string is built for
//! a part on the way.
use vstd::prelude::*;
use crate::common::Render;

verus! {

/// The parts in their order, with `sep` between each two neighbours: not
/// before the first, not after the last. No part is changed, left out or
/// moved.
pub open spec fn join_text(sep: Seq<char>, parts: Seq<Seq<char>>) -> Seq<char>
    decreases parts.len(),
{
    if parts.len() == 0 {
        Seq::empty()
    } else if parts.len() == 1 {
        parts[0]
    } else {
        join_text(sep, parts.drop_last()) + sep + parts.last()
    }
}

/// What is written after one more part: the buffer that held the first `k`
/// parts joined, then the separator and part `k`, holds the first `k + 1`
/// parts joined.
pub proof fn lemma_join_next(before: Seq<char>, sep: Seq<char>, parts: Seq<Seq<char>>, k: int)
    requires
        1 <= k < parts.len(),
    ensures
        before + join_text(sep, parts.take(k)) + sep + parts[k] == before + join_text(
            sep,
            parts.take(k + 1),
        ),
{
    let longer = parts.take(k + 1);
    assert(longer.drop_last() =~= parts.take(k));
    assert(longer.last() == parts[k]);
    assert(before + join_text(sep, parts.take(k)) + sep + parts[k] =~= before + (join_text(
        sep,
        parts.take(k),
    ) + sep + parts[k]));
}

/// With an empty separator, two parts joined are the two parts in a row.
pub proof fn lemma_join_plain_2(a: Seq<char>, b: Seq<char>)
    ensures
        join_text(Seq::empty(), seq![a, b]) == a + b,
{
    let parts = seq![a, b];
    reveal_with_fuel(join_text, 2);
    assert(parts.drop_last() =~= seq![a]);
    assert(join_text(Seq::empty(), parts) =~= a + b);
}

/// With an empty separator, three parts joined are the three parts in a row.
pub proof fn lemma_join_plain_3(a: Seq<char>, b: Seq<char>, c: Seq<char>)
    ensures
        join_text(Seq::empty(), seq![a, b, c]) == a + b + c,
{
    let parts = seq![a, b, c];
    assert(parts.drop_last() =~= seq![a, b]);
    lemma_join_plain_2(a, b);
    assert(join_text(Seq::empty(), parts) =~= a + b + c);
}

/// With an empty separator, four parts joined are the four parts in a row.
pub proof fn lemma_join_plain_4(a: Seq<char>, b: Seq<char>, c: Seq<char>, d: Seq<char>)
    ensures
        join_text(Seq::empty(), seq![a, b, c, d]) == a + b + c + d,
{
    let parts = seq![a, b, c, d];
    assert(parts.drop_last() =~= seq![a, b, c]);
    lemma_join_plain_3(a, b, c);
    assert(join_text(Seq::empty(), parts) =~= a + b + c + d);
}

/// With an empty separator, six parts joined are the six parts in a row.
pub proof fn lemma_join_plain_6(
    a: Seq<char>,
    b: Seq<char>,
    c: Seq<char>,
    d: Seq<char>,
    e: Seq<char>,
    f: Seq<char>,
)
    ensures
        join_text(Seq::empty(), seq![a, b, c, d, e, f]) == a + b + c + d + e + f,
{
    let five = seq![a, b, c, d, e];
    assert(five.drop_last() =~= seq![a, b, c, d]);
    lemma_join_plain_4(a, b, c, d);
    assert(join_text(Seq::empty(), five) =~= a + b + c + d + e);
    let parts = seq![a, b, c, d, e, f];
    assert(parts.drop_last() =~= five);
    assert(join_text(Seq::empty(), parts) =~= a + b + c + d + e + f);
}

/// A separator and the parts that it is to stand between.
pub struct Join<Sep, Tup> {
    pub sep: Sep,
    pub tup: Tup,
}

impl<Sep: Render, A: Render, B: Render> Render for Join<Sep, (A, B)> {
    open spec fn text(&self) -> Seq<char> {
        join_text(self.sep.text(), seq![self.tup.0.text(), self.tup.1.text()])
    }

    fn render(&self, out: &mut String) {
        let ghost before = out@;
        let ghost sep = self.sep.text();
        let ghost parts = seq![self.tup.0.text(), self.tup.1.text()];
        self.tup.0.render(out);
        assert(out@ == before + join_text(sep, parts.take(1)));
        self.sep.render(out);
        self.tup.1.render(out);
        proof {
            lemma_join_next(before, sep, parts, 1);
            assert(parts.take(2) =~= parts);
        }
    }
}

impl<Sep: Render, A: Render, B: Render, C: Render> Render for Join<Sep, (A, B, C)> {
    open spec fn text(&self) -> Seq<char> {
        join_text(
            self.sep.text(),
            seq![
                self.tup.0.text(),
                self.tup.1.text(),
                self.tup.2.text(),
            ],
        )
    }

    fn render(&self, out: &mut String) {
        let ghost before = out@;
        let ghost sep = self.sep.text();
        let ghost parts = seq![
            self.tup.0.text(),
            self.tup.1.text(),
            self.tup.2.text(),
        ];
        self.tup.0.render(out);
        assert(out@ == before + join_text(sep, parts.take(1)));
        self.sep.render(out);
        self.tup.1.render(out);
        proof {
            lemma_join_next(before, sep, parts, 1);
        }
        self.sep.render(out);
        self.tup.2.render(out);
        proof {
            lemma_join_next(before, sep, parts, 2);
            assert(parts.take(3) =~= parts);
        }
    }
}

impl<Sep: Render, A: Render, B: Render, C: Render, D: Render> Render for Join<Sep, (A, B, C, D)> {
    open spec fn text(&self) -> Seq<char> {
        join_text(
            self.sep.text(),
            seq![
                self.tup.0.text(),
                self.tup.1.text(),
                self.tup.2.text(),
                self.tup.3.text(),
            ],
        )
    }

    fn render(&self, out: &mut String) {
        let ghost before = out@;
        let ghost sep = self.sep.text();
        let ghost parts = seq![
            self.tup.0.text(),
            self.tup.1.text(),
            self.tup.2.text(),
            self.tup.3.text(),
        ];
        self.tup.0.render(out);
        assert(out@ == before + join_text(sep, parts.take(1)));
        self.sep.render(out);
        self.tup.1.render(out);
        proof {
            lemma_join_next(before, sep, parts, 1);
        }
        self.sep.render(out);
        self.tup.2.render(out);
        proof {
            lemma_join_next(before, sep, parts, 2);
        }
        self.sep.render(out);
        self.tup.3.render(out);
        proof {
            lemma_join_next(before, sep, parts, 3);
            assert(parts.take(4) =~= parts);
        }
    }
}

impl<Sep: Render, A: Render, B: Render, C: Render, D: Render, E: Render> Render for Join<Sep, (A, B, C, D, E)> {
    open spec fn text(&self) -> Seq<char> {
        join_text(
            self.sep.text(),
            seq![
                self.tup.0.text(),
                self.tup.1.text(),
                self.tup.2.text(),
                self.tup.3.text(),
                self.tup.4.text(),
            ],
        )
    }

    fn render(&self, out: &mut String) {
        let ghost before = out@;
        let ghost sep = self.sep.text();
        let ghost parts = seq![
            self.tup.0.text(),
            self.tup.1.text(),
            self.tup.2.text(),
            self.tup.3.text(),
            self.tup.4.text(),
        ];
        self.tup.0.render(out);
        assert(out@ == before + join_text(sep, parts.take(1)));
        self.sep.render(out);
        self.tup.1.render(out);
        proof {
            lemma_join_next(before, sep, parts, 1);
        }
        self.sep.render(out);
        self.tup.2.render(out);
        proof {
            lemma_join_next(before, sep, parts, 2);
        }
        self.sep.render(out);
        self.tup.3.render(out);
        proof {
            lemma_join_next(before, sep, parts, 3);
        }
        self.sep.render(out);
        self.tup.4.render(out);
        proof {
            lemma_join_next(before, sep, parts, 4);
            assert(parts.take(5) =~= parts);
        }
    }
}

impl<Sep: Render, A: Render, B: Render, C: Render, D: Render, E: Render, F: Render> Render for Join<Sep, (A, B, C, D, E, F)> {
    open spec fn text(&self) -> Seq<char> {
        join_text(
            self.sep.text(),
            seq![
                self.tup.0.text(),
                self.tup.1.text(),
                self.tup.2.text(),
                self.tup.3.text(),
                self.tup.4.text(),
                self.tup.5.text(),
            ],
        )
    }

    fn render(&self, out: &mut String) {
        let ghost before = out@;
        let ghost sep = self.sep.text();
        let ghost parts = seq![
            self.tup.0.text(),
            self.tup.1.text(),
            self.tup.2.text(),
            self.tup.3.text(),
            self.tup.4.text(),
            self.tup.5.text(),
        ];
        self.tup.0.render(out);
        assert(out@ == before + join_text(sep, parts.take(1)));
        self.sep.render(out);
        self.tup.1.render(out);
        proof {
            lemma_join_next(before, sep, parts, 1);
        }
        self.sep.render(out);
        self.tup.2.render(out);
        proof {
            lemma_join_next(before, sep, parts, 2);
        }
        self.sep.render(out);
        self.tup.3.render(out);
        proof {
            lemma_join_next(before, sep, parts, 3);
        }
        self.sep.render(out);
        self.tup.4.render(out);
        proof {
            lemma_join_next(before, sep, parts, 4);
        }
        self.sep.render(out);
        self.tup.5.render(out);
        proof {
            lemma_join_next(before, sep, parts, 5);
            assert(parts.take(6) =~= parts);
        }
    }
}

impl<Sep: Render, A: Render, B: Render, C: Render, D: Render, E: Render, F: Render, G: Render> Render for Join<Sep, (A, B, C, D, E, F, G)> {
    open spec fn text(&self) -> Seq<char> {
        join_text(
            self.sep.text(),
            seq![
                self.tup.0.text(),
                self.tup.1.text(),
                self.tup.2.text(),
                self.tup.3.text(),
                self.tup.4.text(),
                self.tup.5.text(),
                self.tup.6.text(),
            ],
        )
    }

    fn render(&self, out: &mut String) {
        let ghost before = out@;
        let ghost sep = self.sep.text();
        let ghost parts = seq![
            self.tup.0.text(),
            self.tup.1.text(),
            self.tup.2.text(),
            self.tup.3.text(),
            self.tup.4.text(),
            self.tup.5.text(),
            self.tup.6.text(),
        ];
        self.tup.0.render(out);
        assert(out@ == before + join_text(sep, parts.take(1)));
        self.sep.render(out);
        self.tup.1.render(out);
        proof {
            lemma_join_next(before, sep, parts, 1);
        }
        self.sep.render(out);
        self.tup.2.render(out);
        proof {
            lemma_join_next(before, sep, parts, 2);
        }
        self.sep.render(out);
        self.tup.3.render(out);
        proof {
            lemma_join_next(before, sep, parts, 3);
        }
        self.sep.render(out);
        self.tup.4.render(out);
        proof {
            lemma_join_next(before, sep, parts, 4);
        }
        self.sep.render(out);
        self.tup.5.render(out);
        proof {
            lemma_join_next(before, sep, parts, 5);
        }
        self.sep.render(out);
        self.tup.6.render(out);
        proof {
            lemma_join_next(before, sep, parts, 6);
            assert(parts.take(7) =~= parts);
        }
    }
}

impl<Sep: Render, A: Render, B: Render, C: Render, D: Render, E: Render, F: Render, G: Render, H: Render> Render for Join<Sep, (A, B, C, D, E, F, G, H)> {
    open spec fn text(&self) -> Seq<char> {
        join_text(
            self.sep.text(),
            seq![
                self.tup.0.text(),
                self.tup.1.text(),
                self.tup.2.text(),
                self.tup.3.text(),
                self.tup.4.text(),
                self.tup.5.text(),
                self.tup.6.text(),
                self.tup.7.text(),
            ],
        )
    }

    fn render(&self, out: &mut String) {
        let ghost before = out@;
        let ghost sep = self.sep.text();
        let ghost parts = seq![
            self.tup.0.text(),
            self.tup.1.text(),
            self.tup.2.text(),
            self.tup.3.text(),
            self.tup.4.text(),
            self.tup.5.text(),
            self.tup.6.text(),
            self.tup.7.text(),
        ];
        self.tup.0.render(out);
        assert(out@ == before + join_text(sep, parts.take(1)));
        self.sep.render(out);
        self.tup.1.render(out);
        proof {
            lemma_join_next(before, sep, parts, 1);
        }
        self.sep.render(out);
        self.tup.2.render(out);
        proof {
            lemma_join_next(before, sep, parts, 2);
        }
        self.sep.render(out);
        self.tup.3.render(out);
        proof {
            lemma_join_next(before, sep, parts, 3);
        }
        self.sep.render(out);
        self.tup.4.render(out);
        proof {
            lemma_join_next(before, sep, parts, 4);
        }
        self.sep.render(out);
        self.tup.5.render(out);
        proof {
            lemma_join_next(before, sep, parts, 5);
        }
        self.sep.render(out);
        self.tup.6.render(out);
        proof {
            lemma_join_next(before, sep, parts, 6);
        }
        self.sep.render(out);
        self.tup.7.render(out);
        proof {
            lemma_join_next(before, sep, parts, 7);
            assert(parts.take(8) =~= parts);
        }
    }
}

impl<Sep: Render, A: Render, B: Render, C: Render, D: Render, E: Render, F: Render, G: Render, H: Render, I: Render> Render for Join<Sep, (A, B, C, D, E, F, G, H, I)> {
    open spec fn text(&self) -> Seq<char> {
        join_text(
            self.sep.text(),
            seq![
                self.tup.0.text(),
                self.tup.1.text(),
                self.tup.2.text(),
                self.tup.3.text(),
                self.tup.4.text(),
                self.tup.5.text(),
                self.tup.6.text(),
                self.tup.7.text(),
                self.tup.8.text(),
            ],
        )
    }

    fn render(&self, out: &mut String) {
        let ghost before = out@;
        let ghost sep = self.sep.text();
        let ghost parts = seq![
            self.tup.0.text(),
            self.tup.1.text(),
            self.tup.2.text(),
            self.tup.3.text(),
            self.tup.4.text(),
            self.tup.5.text(),
            self.tup.6.text(),
            self.tup.7.text(),
            self.tup.8.text(),
        ];
        self.tup.0.render(out);
        assert(out@ == before + join_text(sep, parts.take(1)));
        self.sep.render(out);
        self.tup.1.render(out);
        proof {
            lemma_join_next(before, sep, parts, 1);
        }
        self.sep.render(out);
        self.tup.2.render(out);
        proof {
            lemma_join_next(before, sep, parts, 2);
        }
        self.sep.render(out);
        self.tup.3.render(out);
        proof {
            lemma_join_next(before, sep, parts, 3);
        }
        self.sep.render(out);
        self.tup.4.render(out);
        proof {
            lemma_join_next(before, sep, parts, 4);
        }
        self.sep.render(out);
        self.tup.5.render(out);
        proof {
            lemma_join_next(before, sep, parts, 5);
        }
        self.sep.render(out);
        self.tup.6.render(out);
        proof {
            lemma_join_next(before, sep, parts, 6);
        }
        self.sep.render(out);
        self.tup.7.render(out);
        proof {
            lemma_join_next(before, sep, parts, 7);
        }
        self.sep.render(out);
        self.tup.8.render(out);
        proof {
            lemma_join_next(before, sep, parts, 8);
            assert(parts.take(9) =~= parts);
        }
    }
}

impl<Sep: Render, A: Render, B: Render, C: Render, D: Render, E: Render, F: Render, G: Render, H: Render, I: Render, J: Render> Render for Join<Sep, (A, B, C, D, E, F, G, H, I, J)> {
    open spec fn text(&self) -> Seq<char> {
        join_text(
            self.sep.text(),
            seq![
                self.tup.0.text(),
                self.tup.1.text(),
                self.tup.2.text(),
                self.tup.3.text(),
                self.tup.4.text(),
                self.tup.5.text(),
                self.tup.6.text(),
                self.tup.7.text(),
                self.tup.8.text(),
                self.tup.9.text(),
            ],
        )
    }

    fn render(&self, out: &mut String) {
        let ghost before = out@;
        let ghost sep = self.sep.text();
        let ghost parts = seq![
            self.tup.0.text(),
            self.tup.1.text(),
            self.tup.2.text(),
            self.tup.3.text(),
            self.tup.4.text(),
            self.tup.5.text(),
            self.tup.6.text(),
            self.tup.7.text(),
            self.tup.8.text(),
            self.tup.9.text(),
        ];
        self.tup.0.render(out);
        assert(out@ == before + join_text(sep, parts.take(1)));
        self.sep.render(out);
        self.tup.1.render(out);
        proof {
            lemma_join_next(before, sep, parts, 1);
        }
        self.sep.render(out);
        self.tup.2.render(out);
        proof {
            lemma_join_next(before, sep, parts, 2);
        }
        self.sep.render(out);
        self.tup.3.render(out);
        proof {
            lemma_join_next(before, sep, parts, 3);
        }
        self.sep.render(out);
        self.tup.4.render(out);
        proof {
            lemma_join_next(before, sep, parts, 4);
        }
        self.sep.render(out);
        self.tup.5.render(out);
        proof {
            lemma_join_next(before, sep, parts, 5);
        }
        self.sep.render(out);
        self.tup.6.render(out);
        proof {
            lemma_join_next(before, sep, parts, 6);
        }
        self.sep.render(out);
        self.tup.7.render(out);
        proof {
            lemma_join_next(before, sep, parts, 7);
        }
        self.sep.render(out);
        self.tup.8.render(out);
        proof {
            lemma_join_next(before, sep, parts, 8);
        }
        self.sep.render(out);
        self.tup.9.render(out);
        proof {
            lemma_join_next(before, sep, parts, 9);
            assert(parts.take(10) =~= parts);
        }
    }
}

impl<Sep: Render, A: Render, B: Render, C: Render, D: Render, E: Render, F: Render, G: Render, H: Render, I: Render, J: Render, K: Render> Render for Join<Sep, (A, B, C, D, E, F, G, H, I, J, K)> {
    open spec fn text(&self) -> Seq<char> {
        join_text(
            self.sep.text(),
            seq![
                self.tup.0.text(),
                self.tup.1.text(),
                self.tup.2.text(),
                self.tup.3.text(),
                self.tup.4.text(),
                self.tup.5.text(),
                self.tup.6.text(),
                self.tup.7.text(),
                self.tup.8.text(),
                self.tup.9.text(),
                self.tup.10.text(),
            ],
        )
    }

    fn render(&self, out: &mut String) {
        let ghost before = out@;
        let ghost sep = self.sep.text();
        let ghost parts = seq![
            self.tup.0.text(),
            self.tup.1.text(),
            self.tup.2.text(),
            self.tup.3.text(),
            self.tup.4.text(),
            self.tup.5.text(),
            self.tup.6.text(),
            self.tup.7.text(),
            self.tup.8.text(),
            self.tup.9.text(),
            self.tup.10.text(),
        ];
        self.tup.0.render(out);
        assert(out@ == before + join_text(sep, parts.take(1)));
        self.sep.render(out);
        self.tup.1.render(out);
        proof {
            lemma_join_next(before, sep, parts, 1);
        }
        self.sep.render(out);
        self.tup.2.render(out);
        proof {
            lemma_join_next(before, sep, parts, 2);
        }
        self.sep.render(out);
        self.tup.3.render(out);
        proof {
            lemma_join_next(before, sep, parts, 3);
        }
        self.sep.render(out);
        self.tup.4.render(out);
        proof {
            lemma_join_next(before, sep, parts, 4);
        }
        self.sep.render(out);
        self.tup.5.render(out);
        proof {
            lemma_join_next(before, sep, parts, 5);
        }
        self.sep.render(out);
        self.tup.6.render(out);
        proof {
            lemma_join_next(before, sep, parts, 6);
        }
        self.sep.render(out);
        self.tup.7.render(out);
        proof {
            lemma_join_next(before, sep, parts, 7);
        }
        self.sep.render(out);
        self.tup.8.render(out);
        proof {
            lemma_join_next(before, sep, parts, 8);
        }
        self.sep.render(out);
        self.tup.9.render(out);
        proof {
            lemma_join_next(before, sep, parts, 9);
        }
        self.sep.render(out);
        self.tup.10.render(out);
        proof {
            lemma_join_next(before, sep, parts, 10);
            assert(parts.take(11) =~= parts);
        }
    }
}

impl<Sep: Render, A: Render, B: Render, C: Render, D: Render, E: Render, F: Render, G: Render, H: Render, I: Render, J: Render, K: Render, L: Render> Render for Join<Sep, (A, B, C, D, E, F, G, H, I, J, K, L)> {
    open spec fn text(&self) -> Seq<char> {
        join_text(
            self.sep.text(),
            seq![
                self.tup.0.text(),
                self.tup.1.text(),
                self.tup.2.text(),
                self.tup.3.text(),
                self.tup.4.text(),
                self.tup.5.text(),
                self.tup.6.text(),
                self.tup.7.text(),
                self.tup.8.text(),
                self.tup.9.text(),
                self.tup.10.text(),
                self.tup.11.text(),
            ],
        )
    }

    fn render(&self, out: &mut String) {
        let ghost before = out@;
        let ghost sep = self.sep.text();
        let ghost parts = seq![
            self.tup.0.text(),
            self.tup.1.text(),
            self.tup.2.text(),
            self.tup.3.text(),
            self.tup.4.text(),
            self.tup.5.text(),
            self.tup.6.text(),
            self.tup.7.text(),
            self.tup.8.text(),
            self.tup.9.text(),
            self.tup.10.text(),
            self.tup.11.text(),
        ];
        self.tup.0.render(out);
        assert(out@ == before + join_text(sep, parts.take(1)));
        self.sep.render(out);
        self.tup.1.render(out);
        proof {
            lemma_join_next(before, sep, parts, 1);
        }
        self.sep.render(out);
        self.tup.2.render(out);
        proof {
            lemma_join_next(before, sep, parts, 2);
        }
        self.sep.render(out);
        self.tup.3.render(out);
        proof {
            lemma_join_next(before, sep, parts, 3);
        }
        self.sep.render(out);
        self.tup.4.render(out);
        proof {
            lemma_join_next(before, sep, parts, 4);
        }
        self.sep.render(out);
        self.tup.5.render(out);
        proof {
            lemma_join_next(before, sep, parts, 5);
        }
        self.sep.render(out);
        self.tup.6.render(out);
        proof {
            lemma_join_next(before, sep, parts, 6);
        }
        self.sep.render(out);
        self.tup.7.render(out);
        proof {
            lemma_join_next(before, sep, parts, 7);
        }
        self.sep.render(out);
        self.tup.8.render(out);
        proof {
            lemma_join_next(before, sep, parts, 8);
        }
        self.sep.render(out);
        self.tup.9.render(out);
        proof {
            lemma_join_next(before, sep, parts, 9);
        }
        self.sep.render(out);
        self.tup.10.render(out);
        proof {
            lemma_join_next(before, sep, parts, 10);
        }
        self.sep.render(out);
        self.tup.11.render(out);
        proof {
            lemma_join_next(before, sep, parts, 11);
            assert(parts.take(12) =~= parts);
        }
    }
}

impl<Sep: Render, A: Render, B: Render, C: Render, D: Render, E: Render, F: Render, G: Render, H: Render, I: Render, J: Render, K: Render, L: Render, M: Render> Render for Join<Sep, (A, B, C, D, E, F, G, H, I, J, K, L, M)> {
    open spec fn text(&self) -> Seq<char> {
        join_text(
            self.sep.text(),
            seq![
                self.tup.0.text(),
                self.tup.1.text(),
                self.tup.2.text(),
                self.tup.3.text(),
                self.tup.4.text(),
                self.tup.5.text(),
                self.tup.6.text(),
                self.tup.7.text(),
                self.tup.8.text(),
                self.tup.9.text(),
                self.tup.10.text(),
                self.tup.11.text(),
                self.tup.12.text(),
            ],
        )
    }

    fn render(&self, out: &mut String) {
        let ghost before = out@;
        let ghost sep = self.sep.text();
        let ghost parts = seq![
            self.tup.0.text(),
            self.tup.1.text(),
            self.tup.2.text(),
            self.tup.3.text(),
            self.tup.4.text(),
            self.tup.5.text(),
            self.tup.6.text(),
            self.tup.7.text(),
            self.tup.8.text(),
            self.tup.9.text(),
            self.tup.10.text(),
            self.tup.11.text(),
            self.tup.12.text(),
        ];
        self.tup.0.render(out);
        assert(out@ == before + join_text(sep, parts.take(1)));
        self.sep.render(out);
        self.tup.1.render(out);
        proof {
            lemma_join_next(before, sep, parts, 1);
        }
        self.sep.render(out);
        self.tup.2.render(out);
        proof {
            lemma_join_next(before, sep, parts, 2);
        }
        self.sep.render(out);
        self.tup.3.render(out);
        proof {
            lemma_join_next(before, sep, parts, 3);
        }
        self.sep.render(out);
        self.tup.4.render(out);
        proof {
            lemma_join_next(before, sep, parts, 4);
        }
        self.sep.render(out);
        self.tup.5.render(out);
        proof {
            lemma_join_next(before, sep, parts, 5);
        }
        self.sep.render(out);
        self.tup.6.render(out);
        proof {
            lemma_join_next(before, sep, parts, 6);
        }
        self.sep.render(out);
        self.tup.7.render(out);
        proof {
            lemma_join_next(before, sep, parts, 7);
        }
        self.sep.render(out);
        self.tup.8.render(out);
        proof {
            lemma_join_next(before, sep, parts, 8);
        }
        self.sep.render(out);
        self.tup.9.render(out);
        proof {
            lemma_join_next(before, sep, parts, 9);
        }
        self.sep.render(out);
        self.tup.10.render(out);
        proof {
            lemma_join_next(before, sep, parts, 10);
        }
        self.sep.render(out);
        self.tup.11.render(out);
        proof {
            lemma_join_next(before, sep, parts, 11);
        }
        self.sep.render(out);
        self.tup.12.render(out);
        proof {
            lemma_join_next(before, sep, parts, 12);
            assert(parts.take(13) =~= parts);
        }
    }
}

impl<Sep: Render, A: Render, B: Render, C: Render, D: Render, E: Render, F: Render, G: Render, H: Render, I: Render, J: Render, K: Render, L: Render, M: Render, N: Render> Render for Join<Sep, (A, B, C, D, E, F, G, H, I, J, K, L, M, N)> {
    open spec fn text(&self) -> Seq<char> {
        join_text(
            self.sep.text(),
            seq![
                self.tup.0.text(),
                self.tup.1.text(),
                self.tup.2.text(),
                self.tup.3.text(),
                self.tup.4.text(),
                self.tup.5.text(),
                self.tup.6.text(),
                self.tup.7.text(),
                self.tup.8.text(),
                self.tup.9.text(),
                self.tup.10.text(),
                self.tup.11.text(),
                self.tup.12.text(),
                self.tup.13.text(),
            ],
        )
    }

    fn render(&self, out: &mut String) {
        let ghost before = out@;
        let ghost sep = self.sep.text();
        let ghost parts = seq![
            self.tup.0.text(),
            self.tup.1.text(),
            self.tup.2.text(),
            self.tup.3.text(),
            self.tup.4.text(),
            self.tup.5.text(),
            self.tup.6.text(),
            self.tup.7.text(),
            self.tup.8.text(),
            self.tup.9.text(),
            self.tup.10.text(),
            self.tup.11.text(),
            self.tup.12.text(),
            self.tup.13.text(),
        ];
        self.tup.0.render(out);
        assert(out@ == before + join_text(sep, parts.take(1)));
        self.sep.render(out);
        self.tup.1.render(out);
        proof {
            lemma_join_next(before, sep, parts, 1);
        }
        self.sep.render(out);
        self.tup.2.render(out);
        proof {
            lemma_join_next(before, sep, parts, 2);
        }
        self.sep.render(out);
        self.tup.3.render(out);
        proof {
            lemma_join_next(before, sep, parts, 3);
        }
        self.sep.render(out);
        self.tup.4.render(out);
        proof {
            lemma_join_next(before, sep, parts, 4);
        }
        self.sep.render(out);
        self.tup.5.render(out);
        proof {
            lemma_join_next(before, sep, parts, 5);
        }
        self.sep.render(out);
        self.tup.6.render(out);
        proof {
            lemma_join_next(before, sep, parts, 6);
        }
        self.sep.render(out);
        self.tup.7.render(out);
        proof {
            lemma_join_next(before, sep, parts, 7);
        }
        self.sep.render(out);
        self.tup.8.render(out);
        proof {
            lemma_join_next(before, sep, parts, 8);
        }
        self.sep.render(out);
        self.tup.9.render(out);
        proof {
            lemma_join_next(before, sep, parts, 9);
        }
        self.sep.render(out);
        self.tup.10.render(out);
        proof {
            lemma_join_next(before, sep, parts, 10);
        }
        self.sep.render(out);
        self.tup.11.render(out);
        proof {
            lemma_join_next(before, sep, parts, 11);
        }
        self.sep.render(out);
        self.tup.12.render(out);
        proof {
            lemma_join_next(before, sep, parts, 12);
        }
        self.sep.render(out);
        self.tup.13.render(out);
        proof {
            lemma_join_next(before, sep, parts, 13);
            assert(parts.take(14) =~= parts);
        }
    }
}

impl<Sep: Render, A: Render, B: Render, C: Render, D: Render, E: Render, F: Render, G: Render, H: Render, I: Render, J: Render, K: Render, L: Render, M: Render, N: Render, O: Render> Render for Join<Sep, (A, B, C, D, E, F, G, H, I, J, K, L, M, N, O)> {
    open spec fn text(&self) -> Seq<char> {
        join_text(
            self.sep.text(),
            seq![
                self.tup.0.text(),
                self.tup.1.text(),
                self.tup.2.text(),
                self.tup.3.text(),
                self.tup.4.text(),
                self.tup.5.text(),
                self.tup.6.text(),
                self.tup.7.text(),
                self.tup.8.text(),
                self.tup.9.text(),
                self.tup.10.text(),
                self.tup.11.text(),
                self.tup.12.text(),
                self.tup.13.text(),
                self.tup.14.text(),
            ],
        )
    }

    fn render(&self, out: &mut String) {
        let ghost before = out@;
        let ghost sep = self.sep.text();
        let ghost parts = seq![
            self.tup.0.text(),
            self.tup.1.text(),
            self.tup.2.text(),
            self.tup.3.text(),
            self.tup.4.text(),
            self.tup.5.text(),
            self.tup.6.text(),
            self.tup.7.text(),
            self.tup.8.text(),
            self.tup.9.text(),
            self.tup.10.text(),
            self.tup.11.text(),
            self.tup.12.text(),
            self.tup.13.text(),
            self.tup.14.text(),
        ];
        self.tup.0.render(out);
        assert(out@ == before + join_text(sep, parts.take(1)));
        self.sep.render(out);
        self.tup.1.render(out);
        proof {
            lemma_join_next(before, sep, parts, 1);
        }
        self.sep.render(out);
        self.tup.2.render(out);
        proof {
            lemma_join_next(before, sep, parts, 2);
        }
        self.sep.render(out);
        self.tup.3.render(out);
        proof {
            lemma_join_next(before, sep, parts, 3);
        }
        self.sep.render(out);
        self.tup.4.render(out);
        proof {
            lemma_join_next(before, sep, parts, 4);
        }
        self.sep.render(out);
        self.tup.5.render(out);
        proof {
            lemma_join_next(before, sep, parts, 5);
        }
        self.sep.render(out);
        self.tup.6.render(out);
        proof {
            lemma_join_next(before, sep, parts, 6);
        }
        self.sep.render(out);
        self.tup.7.render(out);
        proof {
            lemma_join_next(before, sep, parts, 7);
        }
        self.sep.render(out);
        self.tup.8.render(out);
        proof {
            lemma_join_next(before, sep, parts, 8);
        }
        self.sep.render(out);
        self.tup.9.render(out);
        proof {
            lemma_join_next(before, sep, parts, 9);
        }
        self.sep.render(out);
        self.tup.10.render(out);
        proof {
            lemma_join_next(before, sep, parts, 10);
        }
        self.sep.render(out);
        self.tup.11.render(out);
        proof {
            lemma_join_next(before, sep, parts, 11);
        }
        self.sep.render(out);
        self.tup.12.render(out);
        proof {
            lemma_join_next(before, sep, parts, 12);
        }
        self.sep.render(out);
        self.tup.13.render(out);
        proof {
            lemma_join_next(before, sep, parts, 13);
        }
        self.sep.render(out);
        self.tup.14.render(out);
        proof {
            lemma_join_next(before, sep, parts, 14);
            assert(parts.take(15) =~= parts);
        }
    }
}

impl<Sep: Render, A: Render, B: Render, C: Render, D: Render, E: Render, F: Render, G: Render, H: Render, I: Render, J: Render, K: Render, L: Render, M: Render, N: Render, O: Render, P: Render> Render for Join<Sep, (A, B, C, D, E, F, G, H, I, J, K, L, M, N, O, P)> {
    open spec fn text(&self) -> Seq<char> {
        join_text(
            self.sep.text(),
            seq![
                self.tup.0.text(),
                self.tup.1.text(),
                self.tup.2.text(),
                self.tup.3.text(),
                self.tup.4.text(),
                self.tup.5.text(),
                self.tup.6.text(),
                self.tup.7.text(),
                self.tup.8.text(),
                self.tup.9.text(),
                self.tup.10.text(),
                self.tup.11.text(),
                self.tup.12.text(),
                self.tup.13.text(),
                self.tup.14.text(),
                self.tup.15.text(),
            ],
        )
    }

    fn render(&self, out: &mut String) {
        let ghost before = out@;
        let ghost sep = self.sep.text();
        let ghost parts = seq![
            self.tup.0.text(),
            self.tup.1.text(),
            self.tup.2.text(),
            self.tup.3.text(),
            self.tup.4.text(),
            self.tup.5.text(),
            self.tup.6.text(),
            self.tup.7.text(),
            self.tup.8.text(),
            self.tup.9.text(),
            self.tup.10.text(),
            self.tup.11.text(),
            self.tup.12.text(),
            self.tup.13.text(),
            self.tup.14.text(),
            self.tup.15.text(),
        ];
        self.tup.0.render(out);
        assert(out@ == before + join_text(sep, parts.take(1)));
        self.sep.render(out);
        self.tup.1.render(out);
        proof {
            lemma_join_next(before, sep, parts, 1);
        }
        self.sep.render(out);
        self.tup.2.render(out);
        proof {
            lemma_join_next(before, sep, parts, 2);
        }
        self.sep.render(out);
        self.tup.3.render(out);
        proof {
            lemma_join_next(before, sep, parts, 3);
        }
        self.sep.render(out);
        self.tup.4.render(out);
        proof {
            lemma_join_next(before, sep, parts, 4);
        }
        self.sep.render(out);
        self.tup.5.render(out);
        proof {
            lemma_join_next(before, sep, parts, 5);
        }
        self.sep.render(out);
        self.tup.6.render(out);
        proof {
            lemma_join_next(before, sep, parts, 6);
        }
        self.sep.render(out);
        self.tup.7.render(out);
        proof {
            lemma_join_next(before, sep, parts, 7);
        }
        self.sep.render(out);
        self.tup.8.render(out);
        proof {
            lemma_join_next(before, sep, parts, 8);
        }
        self.sep.render(out);
        self.tup.9.render(out);
        proof {
            lemma_join_next(before, sep, parts, 9);
        }
        self.sep.render(out);
        self.tup.10.render(out);
        proof {
            lemma_join_next(before, sep, parts, 10);
        }
        self.sep.render(out);
        self.tup.11.render(out);
        proof {
            lemma_join_next(before, sep, parts, 11);
        }
        self.sep.render(out);
        self.tup.12.render(out);
        proof {
            lemma_join_next(before, sep, parts, 12);
        }
        self.sep.render(out);
        self.tup.13.render(out);
        proof {
            lemma_join_next(before, sep, parts, 13);
        }
        self.sep.render(out);
        self.tup.14.render(out);
        proof {
            lemma_join_next(before, sep, parts, 14);
        }
        self.sep.render(out);
        self.tup.15.render(out);
        proof {
            lemma_join_next(before, sep, parts, 15);
            assert(parts.take(16) =~= parts);
        }
    }
}

impl<Sep: Render, A: Render, B: Render, C: Render, D: Render, E: Render, F: Render, G: Render, H: Render, I: Render, J: Render, K: Render, L: Render, M: Render, N: Render, O: Render, P: Render, Q: Render> Render for Join<Sep, (A, B, C, D, E, F, G, H, I, J, K, L, M, N, O, P, Q)> {
    open spec fn text(&self) -> Seq<char> {
        join_text(
            self.sep.text(),
            seq![
                self.tup.0.text(),
                self.tup.1.text(),
                self.tup.2.text(),
                self.tup.3.text(),
                self.tup.4.text(),
                self.tup.5.text(),
                self.tup.6.text(),
                self.tup.7.text(),
                self.tup.8.text(),
                self.tup.9.text(),
                self.tup.10.text(),
                self.tup.11.text(),
                self.tup.12.text(),
                self.tup.13.text(),
                self.tup.14.text(),
                self.tup.15.text(),
                self.tup.16.text(),
            ],
        )
    }

    fn render(&self, out: &mut String) {
        let ghost before = out@;
        let ghost sep = self.sep.text();
        let ghost parts = seq![
            self.tup.0.text(),
            self.tup.1.text(),
            self.tup.2.text(),
            self.tup.3.text(),
            self.tup.4.text(),
            self.tup.5.text(),
            self.tup.6.text(),
            self.tup.7.text(),
            self.tup.8.text(),
            self.tup.9.text(),
            self.tup.10.text(),
            self.tup.11.text(),
            self.tup.12.text(),
            self.tup.13.text(),
            self.tup.14.text(),
            self.tup.15.text(),
            self.tup.16.text(),
        ];
        self.tup.0.render(out);
        assert(out@ == before + join_text(sep, parts.take(1)));
        self.sep.render(out);
        self.tup.1.render(out);
        proof {
            lemma_join_next(before, sep, parts, 1);
        }
        self.sep.render(out);
        self.tup.2.render(out);
        proof {
            lemma_join_next(before, sep, parts, 2);
        }
        self.sep.render(out);
        self.tup.3.render(out);
        proof {
            lemma_join_next(before, sep, parts, 3);
        }
        self.sep.render(out);
        self.tup.4.render(out);
        proof {
            lemma_join_next(before, sep, parts, 4);
        }
        self.sep.render(out);
        self.tup.5.render(out);
        proof {
            lemma_join_next(before, sep, parts, 5);
        }
        self.sep.render(out);
        self.tup.6.render(out);
        proof {
            lemma_join_next(before, sep, parts, 6);
        }
        self.sep.render(out);
        self.tup.7.render(out);
        proof {
            lemma_join_next(before, sep, parts, 7);
        }
        self.sep.render(out);
        self.tup.8.render(out);
        proof {
            lemma_join_next(before, sep, parts, 8);
        }
        self.sep.render(out);
        self.tup.9.render(out);
        proof {
            lemma_join_next(before, sep, parts, 9);
        }
        self.sep.render(out);
        self.tup.10.render(out);
        proof {
            lemma_join_next(before, sep, parts, 10);
        }
        self.sep.render(out);
        self.tup.11.render(out);
        proof {
            lemma_join_next(before, sep, parts, 11);
        }
        self.sep.render(out);
        self.tup.12.render(out);
        proof {
            lemma_join_next(before, sep, parts, 12);
        }
        self.sep.render(out);
        self.tup.13.render(out);
        proof {
            lemma_join_next(before, sep, parts, 13);
        }
        self.sep.render(out);
        self.tup.14.render(out);
        proof {
            lemma_join_next(before, sep, parts, 14);
        }
        self.sep.render(out);
        self.tup.15.render(out);
        proof {
            lemma_join_next(before, sep, parts, 15);
        }
        self.sep.render(out);
        self.tup.16.render(out);
        proof {
            lemma_join_next(before, sep, parts, 16);
            assert(parts.take(17) =~= parts);
        }
    }
}

impl<Sep: Render, A: Render, B: Render, C: Render, D: Render, E: Render, F: Render, G: Render, H: Render, I: Render, J: Render, K: Render, L: Render, M: Render, N: Render, O: Render, P: Render, Q: Render, R: Render> Render for Join<Sep, (A, B, C, D, E, F, G, H, I, J, K, L, M, N, O, P, Q, R)> {
    open spec fn text(&self) -> Seq<char> {
        join_text(
            self.sep.text(),
            seq![
                self.tup.0.text(),
                self.tup.1.text(),
                self.tup.2.text(),
                self.tup.3.text(),
                self.tup.4.text(),
                self.tup.5.text(),
                self.tup.6.text(),
                self.tup.7.text(),
                self.tup.8.text(),
                self.tup.9.text(),
                self.tup.10.text(),
                self.tup.11.text(),
                self.tup.12.text(),
                self.tup.13.text(),
                self.tup.14.text(),
                self.tup.15.text(),
                self.tup.16.text(),
                self.tup.17.text(),
            ],
        )
    }

    fn render(&self, out: &mut String) {
        let ghost before = out@;
        let ghost sep = self.sep.text();
        let ghost parts = seq![
            self.tup.0.text(),
            self.tup.1.text(),
            self.tup.2.text(),
            self.tup.3.text(),
            self.tup.4.text(),
            self.tup.5.text(),
            self.tup.6.text(),
            self.tup.7.text(),
            self.tup.8.text(),
            self.tup.9.text(),
            self.tup.10.text(),
            self.tup.11.text(),
            self.tup.12.text(),
            self.tup.13.text(),
            self.tup.14.text(),
            self.tup.15.text(),
            self.tup.16.text(),
            self.tup.17.text(),
        ];
        self.tup.0.render(out);
        assert(out@ == before + join_text(sep, parts.take(1)));
        self.sep.render(out);
        self.tup.1.render(out);
        proof {
            lemma_join_next(before, sep, parts, 1);
        }
        self.sep.render(out);
        self.tup.2.render(out);
        proof {
            lemma_join_next(before, sep, parts, 2);
        }
        self.sep.render(out);
        self.tup.3.render(out);
        proof {
            lemma_join_next(before, sep, parts, 3);
        }
        self.sep.render(out);
        self.tup.4.render(out);
        proof {
            lemma_join_next(before, sep, parts, 4);
        }
        self.sep.render(out);
        self.tup.5.render(out);
        proof {
            lemma_join_next(before, sep, parts, 5);
        }
        self.sep.render(out);
        self.tup.6.render(out);
        proof {
            lemma_join_next(before, sep, parts, 6);
        }
        self.sep.render(out);
        self.tup.7.render(out);
        proof {
            lemma_join_next(before, sep, parts, 7);
        }
        self.sep.render(out);
        self.tup.8.render(out);
        proof {
            lemma_join_next(before, sep, parts, 8);
        }
        self.sep.render(out);
        self.tup.9.render(out);
        proof {
            lemma_join_next(before, sep, parts, 9);
        }
        self.sep.render(out);
        self.tup.10.render(out);
        proof {
            lemma_join_next(before, sep, parts, 10);
        }
        self.sep.render(out);
        self.tup.11.render(out);
        proof {
            lemma_join_next(before, sep, parts, 11);
        }
        self.sep.render(out);
        self.tup.12.render(out);
        proof {
            lemma_join_next(before, sep, parts, 12);
        }
        self.sep.render(out);
        self.tup.13.render(out);
        proof {
            lemma_join_next(before, sep, parts, 13);
        }
        self.sep.render(out);
        self.tup.14.render(out);
        proof {
            lemma_join_next(before, sep, parts, 14);
        }
        self.sep.render(out);
        self.tup.15.render(out);
        proof {
            lemma_join_next(before, sep, parts, 15);
        }
        self.sep.render(out);
        self.tup.16.render(out);
        proof {
            lemma_join_next(before, sep, parts, 16);
        }
        self.sep.render(out);
        self.tup.17.render(out);
        proof {
            lemma_join_next(before, sep, parts, 17);
            assert(parts.take(18) =~= parts);
        }
    }
}

impl<Sep: Render, A: Render, B: Render, C: Render, D: Render, E: Render, F: Render, G: Render, H: Render, I: Render, J: Render, K: Render, L: Render, M: Render, N: Render, O: Render, P: Render, Q: Render, R: Render, S: Render> Render for Join<Sep, (A, B, C, D, E, F, G, H, I, J, K, L, M, N, O, P, Q, R, S)> {
    open spec fn text(&self) -> Seq<char> {
        join_text(
            self.sep.text(),
            seq![
                self.tup.0.text(),
                self.tup.1.text(),
                self.tup.2.text(),
                self.tup.3.text(),
                self.tup.4.text(),
                self.tup.5.text(),
                self.tup.6.text(),
                self.tup.7.text(),
                self.tup.8.text(),
                self.tup.9.text(),
                self.tup.10.text(),
                self.tup.11.text(),
                self.tup.12.text(),
                self.tup.13.text(),
                self.tup.14.text(),
                self.tup.15.text(),
                self.tup.16.text(),
                self.tup.17.text(),
                self.tup.18.text(),
            ],
        )
    }

    fn render(&self, out: &mut String) {
        let ghost before = out@;
        let ghost sep = self.sep.text();
        let ghost parts = seq![
            self.tup.0.text(),
            self.tup.1.text(),
            self.tup.2.text(),
            self.tup.3.text(),
            self.tup.4.text(),
            self.tup.5.text(),
            self.tup.6.text(),
            self.tup.7.text(),
            self.tup.8.text(),
            self.tup.9.text(),
            self.tup.10.text(),
            self.tup.11.text(),
            self.tup.12.text(),
            self.tup.13.text(),
            self.tup.14.text(),
            self.tup.15.text(),
            self.tup.16.text(),
            self.tup.17.text(),
            self.tup.18.text(),
        ];
        self.tup.0.render(out);
        assert(out@ == before + join_text(sep, parts.take(1)));
        self.sep.render(out);
        self.tup.1.render(out);
        proof {
            lemma_join_next(before, sep, parts, 1);
        }
        self.sep.render(out);
        self.tup.2.render(out);
        proof {
            lemma_join_next(before, sep, parts, 2);
        }
        self.sep.render(out);
        self.tup.3.render(out);
        proof {
            lemma_join_next(before, sep, parts, 3);
        }
        self.sep.render(out);
        self.tup.4.render(out);
        proof {
            lemma_join_next(before, sep, parts, 4);
        }
        self.sep.render(out);
        self.tup.5.render(out);
        proof {
            lemma_join_next(before, sep, parts, 5);
        }
        self.sep.render(out);
        self.tup.6.render(out);
        proof {
            lemma_join_next(before, sep, parts, 6);
        }
        self.sep.render(out);
        self.tup.7.render(out);
        proof {
            lemma_join_next(before, sep, parts, 7);
        }
        self.sep.render(out);
        self.tup.8.render(out);
        proof {
            lemma_join_next(before, sep, parts, 8);
        }
        self.sep.render(out);
        self.tup.9.render(out);
        proof {
            lemma_join_next(before, sep, parts, 9);
        }
        self.sep.render(out);
        self.tup.10.render(out);
        proof {
            lemma_join_next(before, sep, parts, 10);
        }
        self.sep.render(out);
        self.tup.11.render(out);
        proof {
            lemma_join_next(before, sep, parts, 11);
        }
        self.sep.render(out);
        self.tup.12.render(out);
        proof {
            lemma_join_next(before, sep, parts, 12);
        }
        self.sep.render(out);
        self.tup.13.render(out);
        proof {
            lemma_join_next(before, sep, parts, 13);
        }
        self.sep.render(out);
        self.tup.14.render(out);
        proof {
            lemma_join_next(before, sep, parts, 14);
        }
        self.sep.render(out);
        self.tup.15.render(out);
        proof {
            lemma_join_next(before, sep, parts, 15);
        }
        self.sep.render(out);
        self.tup.16.render(out);
        proof {
            lemma_join_next(before, sep, parts, 16);
        }
        self.sep.render(out);
        self.tup.17.render(out);
        proof {
            lemma_join_next(before, sep, parts, 17);
        }
        self.sep.render(out);
        self.tup.18.render(out);
        proof {
            lemma_join_next(before, sep, parts, 18);
            assert(parts.take(19) =~= parts);
        }
    }
}

impl<Sep: Render, A: Render, B: Render, C: Render, D: Render, E: Render, F: Render, G: Render, H: Render, I: Render, J: Render, K: Render, L: Render, M: Render, N: Render, O: Render, P: Render, Q: Render, R: Render, S: Render, T: Render> Render for Join<Sep, (A, B, C, D, E, F, G, H, I, J, K, L, M, N, O, P, Q, R, S, T)> {
    open spec fn text(&self) -> Seq<char> {
        join_text(
            self.sep.text(),
            seq![
                self.tup.0.text(),
                self.tup.1.text(),
                self.tup.2.text(),
                self.tup.3.text(),
                self.tup.4.text(),
                self.tup.5.text(),
                self.tup.6.text(),
                self.tup.7.text(),
                self.tup.8.text(),
                self.tup.9.text(),
                self.tup.10.text(),
                self.tup.11.text(),
                self.tup.12.text(),
                self.tup.13.text(),
                self.tup.14.text(),
                self.tup.15.text(),
                self.tup.16.text(),
                self.tup.17.text(),
                self.tup.18.text(),
                self.tup.19.text(),
            ],
        )
    }

    fn render(&self, out: &mut String) {
        let ghost before = out@;
        let ghost sep = self.sep.text();
        let ghost parts = seq![
            self.tup.0.text(),
            self.tup.1.text(),
            self.tup.2.text(),
            self.tup.3.text(),
            self.tup.4.text(),
            self.tup.5.text(),
            self.tup.6.text(),
            self.tup.7.text(),
            self.tup.8.text(),
            self.tup.9.text(),
            self.tup.10.text(),
            self.tup.11.text(),
            self.tup.12.text(),
            self.tup.13.text(),
            self.tup.14.text(),
            self.tup.15.text(),
            self.tup.16.text(),
            self.tup.17.text(),
            self.tup.18.text(),
            self.tup.19.text(),
        ];
        self.tup.0.render(out);
        assert(out@ == before + join_text(sep, parts.take(1)));
        self.sep.render(out);
        self.tup.1.render(out);
        proof {
            lemma_join_next(before, sep, parts, 1);
        }
        self.sep.render(out);
        self.tup.2.render(out);
        proof {
            lemma_join_next(before, sep, parts, 2);
        }
        self.sep.render(out);
        self.tup.3.render(out);
        proof {
            lemma_join_next(before, sep, parts, 3);
        }
        self.sep.render(out);
        self.tup.4.render(out);
        proof {
            lemma_join_next(before, sep, parts, 4);
        }
        self.sep.render(out);
        self.tup.5.render(out);
        proof {
            lemma_join_next(before, sep, parts, 5);
        }
        self.sep.render(out);
        self.tup.6.render(out);
        proof {
            lemma_join_next(before, sep, parts, 6);
        }
        self.sep.render(out);
        self.tup.7.render(out);
        proof {
            lemma_join_next(before, sep, parts, 7);
        }
        self.sep.render(out);
        self.tup.8.render(out);
        proof {
            lemma_join_next(before, sep, parts, 8);
        }
        self.sep.render(out);
        self.tup.9.render(out);
        proof {
            lemma_join_next(before, sep, parts, 9);
        }
        self.sep.render(out);
        self.tup.10.render(out);
        proof {
            lemma_join_next(before, sep, parts, 10);
        }
        self.sep.render(out);
        self.tup.11.render(out);
        proof {
            lemma_join_next(before, sep, parts, 11);
        }
        self.sep.render(out);
        self.tup.12.render(out);
        proof {
            lemma_join_next(before, sep, parts, 12);
        }
        self.sep.render(out);
        self.tup.13.render(out);
        proof {
            lemma_join_next(before, sep, parts, 13);
        }
        self.sep.render(out);
        self.tup.14.render(out);
        proof {
            lemma_join_next(before, sep, parts, 14);
        }
        self.sep.render(out);
        self.tup.15.render(out);
        proof {
            lemma_join_next(before, sep, parts, 15);
        }
        self.sep.render(out);
        self.tup.16.render(out);
        proof {
            lemma_join_next(before, sep, parts, 16);
        }
        self.sep.render(out);
        self.tup.17.render(out);
        proof {
            lemma_join_next(before, sep, parts, 17);
        }
        self.sep.render(out);
        self.tup.18.render(out);
        proof {
            lemma_join_next(before, sep, parts, 18);
        }
        self.sep.render(out);
        self.tup.19.render(out);
        proof {
            lemma_join_next(before, sep, parts, 19);
            assert(parts.take(20) =~= parts);
        }
    }
}

impl<Sep: Render, A: Render, B: Render, C: Render, D: Render, E: Render, F: Render, G: Render, H: Render, I: Render, J: Render, K: Render, L: Render, M: Render, N: Render, O: Render, P: Render, Q: Render, R: Render, S: Render, T: Render, U: Render> Render for Join<Sep, (A, B, C, D, E, F, G, H, I, J, K, L, M, N, O, P, Q, R, S, T, U)> {
    open spec fn text(&self) -> Seq<char> {
        join_text(
            self.sep.text(),
            seq![
                self.tup.0.text(),
                self.tup.1.text(),
                self.tup.2.text(),
                self.tup.3.text(),
                self.tup.4.text(),
                self.tup.5.text(),
                self.tup.6.text(),
                self.tup.7.text(),
                self.tup.8.text(),
                self.tup.9.text(),
                self.tup.10.text(),
                self.tup.11.text(),
                self.tup.12.text(),
                self.tup.13.text(),
                self.tup.14.text(),
                self.tup.15.text(),
                self.tup.16.text(),
                self.tup.17.text(),
                self.tup.18.text(),
                self.tup.19.text(),
                self.tup.20.text(),
            ],
        )
    }

    fn render(&self, out: &mut String) {
        let ghost before = out@;
        let ghost sep = self.sep.text();
        let ghost parts = seq![
            self.tup.0.text(),
            self.tup.1.text(),
            self.tup.2.text(),
            self.tup.3.text(),
            self.tup.4.text(),
            self.tup.5.text(),
            self.tup.6.text(),
            self.tup.7.text(),
            self.tup.8.text(),
            self.tup.9.text(),
            self.tup.10.text(),
            self.tup.11.text(),
            self.tup.12.text(),
            self.tup.13.text(),
            self.tup.14.text(),
            self.tup.15.text(),
            self.tup.16.text(),
            self.tup.17.text(),
            self.tup.18.text(),
            self.tup.19.text(),
            self.tup.20.text(),
        ];
        self.tup.0.render(out);
        assert(out@ == before + join_text(sep, parts.take(1)));
        self.sep.render(out);
        self.tup.1.render(out);
        proof {
            lemma_join_next(before, sep, parts, 1);
        }
        self.sep.render(out);
        self.tup.2.render(out);
        proof {
            lemma_join_next(before, sep, parts, 2);
        }
        self.sep.render(out);
        self.tup.3.render(out);
        proof {
            lemma_join_next(before, sep, parts, 3);
        }
        self.sep.render(out);
        self.tup.4.render(out);
        proof {
            lemma_join_next(before, sep, parts, 4);
        }
        self.sep.render(out);
        self.tup.5.render(out);
        proof {
            lemma_join_next(before, sep, parts, 5);
        }
        self.sep.render(out);
        self.tup.6.render(out);
        proof {
            lemma_join_next(before, sep, parts, 6);
        }
        self.sep.render(out);
        self.tup.7.render(out);
        proof {
            lemma_join_next(before, sep, parts, 7);
        }
        self.sep.render(out);
        self.tup.8.render(out);
        proof {
            lemma_join_next(before, sep, parts, 8);
        }
        self.sep.render(out);
        self.tup.9.render(out);
        proof {
            lemma_join_next(before, sep, parts, 9);
        }
        self.sep.render(out);
        self.tup.10.render(out);
        proof {
            lemma_join_next(before, sep, parts, 10);
        }
        self.sep.render(out);
        self.tup.11.render(out);
        proof {
            lemma_join_next(before, sep, parts, 11);
        }
        self.sep.render(out);
        self.tup.12.render(out);
        proof {
            lemma_join_next(before, sep, parts, 12);
        }
        self.sep.render(out);
        self.tup.13.render(out);
        proof {
            lemma_join_next(before, sep, parts, 13);
        }
        self.sep.render(out);
        self.tup.14.render(out);
        proof {
            lemma_join_next(before, sep, parts, 14);
        }
        self.sep.render(out);
        self.tup.15.render(out);
        proof {
            lemma_join_next(before, sep, parts, 15);
        }
        self.sep.render(out);
        self.tup.16.render(out);
        proof {
            lemma_join_next(before, sep, parts, 16);
        }
        self.sep.render(out);
        self.tup.17.render(out);
        proof {
            lemma_join_next(before, sep, parts, 17);
        }
        self.sep.render(out);
        self.tup.18.render(out);
        proof {
            lemma_join_next(before, sep, parts, 18);
        }
        self.sep.render(out);
        self.tup.19.render(out);
        proof {
            lemma_join_next(before, sep, parts, 19);
        }
        self.sep.render(out);
        self.tup.20.render(out);
        proof {
            lemma_join_next(before, sep, parts, 20);
            assert(parts.take(21) =~= parts);
        }
    }
}

impl<Sep: Render, A: Render, B: Render, C: Render, D: Render, E: Render, F: Render, G: Render, H: Render, I: Render, J: Render, K: Render, L: Render, M: Render, N: Render, O: Render, P: Render, Q: Render, R: Render, S: Render, T: Render, U: Render, V: Render> Render for Join<Sep, (A, B, C, D, E, F, G, H, I, J, K, L, M, N, O, P, Q, R, S, T, U, V)> {
    open spec fn text(&self) -> Seq<char> {
        join_text(
            self.sep.text(),
            seq![
                self.tup.0.text(),
                self.tup.1.text(),
                self.tup.2.text(),
                self.tup.3.text(),
                self.tup.4.text(),
                self.tup.5.text(),
                self.tup.6.text(),
                self.tup.7.text(),
                self.tup.8.text(),
                self.tup.9.text(),
                self.tup.10.text(),
                self.tup.11.text(),
                self.tup.12.text(),
                self.tup.13.text(),
                self.tup.14.text(),
                self.tup.15.text(),
                self.tup.16.text(),
                self.tup.17.text(),
                self.tup.18.text(),
                self.tup.19.text(),
                self.tup.20.text(),
                self.tup.21.text(),
            ],
        )
    }

    fn render(&self, out: &mut String) {
        let ghost before = out@;
        let ghost sep = self.sep.text();
        let ghost parts = seq![
            self.tup.0.text(),
            self.tup.1.text(),
            self.tup.2.text(),
            self.tup.3.text(),
            self.tup.4.text(),
            self.tup.5.text(),
            self.tup.6.text(),
            self.tup.7.text(),
            self.tup.8.text(),
            self.tup.9.text(),
            self.tup.10.text(),
            self.tup.11.text(),
            self.tup.12.text(),
            self.tup.13.text(),
            self.tup.14.text(),
            self.tup.15.text(),
            self.tup.16.text(),
            self.tup.17.text(),
            self.tup.18.text(),
            self.tup.19.text(),
            self.tup.20.text(),
            self.tup.21.text(),
        ];
        self.tup.0.render(out);
        assert(out@ == before + join_text(sep, parts.take(1)));
        self.sep.render(out);
        self.tup.1.render(out);
        proof {
            lemma_join_next(before, sep, parts, 1);
        }
        self.sep.render(out);
        self.tup.2.render(out);
        proof {
            lemma_join_next(before, sep, parts, 2);
        }
        self.sep.render(out);
        self.tup.3.render(out);
        proof {
            lemma_join_next(before, sep, parts, 3);
        }
        self.sep.render(out);
        self.tup.4.render(out);
        proof {
            lemma_join_next(before, sep, parts, 4);
        }
        self.sep.render(out);
        self.tup.5.render(out);
        proof {
            lemma_join_next(before, sep, parts, 5);
        }
        self.sep.render(out);
        self.tup.6.render(out);
        proof {
            lemma_join_next(before, sep, parts, 6);
        }
        self.sep.render(out);
        self.tup.7.render(out);
        proof {
            lemma_join_next(before, sep, parts, 7);
        }
        self.sep.render(out);
        self.tup.8.render(out);
        proof {
            lemma_join_next(before, sep, parts, 8);
        }
        self.sep.render(out);
        self.tup.9.render(out);
        proof {
            lemma_join_next(before, sep, parts, 9);
        }
        self.sep.render(out);
        self.tup.10.render(out);
        proof {
            lemma_join_next(before, sep, parts, 10);
        }
        self.sep.render(out);
        self.tup.11.render(out);
        proof {
            lemma_join_next(before, sep, parts, 11);
        }
        self.sep.render(out);
        self.tup.12.render(out);
        proof {
            lemma_join_next(before, sep, parts, 12);
        }
        self.sep.render(out);
        self.tup.13.render(out);
        proof {
            lemma_join_next(before, sep, parts, 13);
        }
        self.sep.render(out);
        self.tup.14.render(out);
        proof {
            lemma_join_next(before, sep, parts, 14);
        }
        self.sep.render(out);
        self.tup.15.render(out);
        proof {
            lemma_join_next(before, sep, parts, 15);
        }
        self.sep.render(out);
        self.tup.16.render(out);
        proof {
            lemma_join_next(before, sep, parts, 16);
        }
        self.sep.render(out);
        self.tup.17.render(out);
        proof {
            lemma_join_next(before, sep, parts, 17);
        }
        self.sep.render(out);
        self.tup.18.render(out);
        proof {
            lemma_join_next(before, sep, parts, 18);
        }
        self.sep.render(out);
        self.tup.19.render(out);
        proof {
            lemma_join_next(before, sep, parts, 19);
        }
        self.sep.render(out);
        self.tup.20.render(out);
        proof {
            lemma_join_next(before, sep, parts, 20);
        }
        self.sep.render(out);
        self.tup.21.render(out);
        proof {
            lemma_join_next(before, sep, parts, 21);
            assert(parts.take(22) =~= parts);
        }
    }
}

impl<Sep: Render, A: Render, B: Render, C: Render, D: Render, E: Render, F: Render, G: Render, H: Render, I: Render, J: Render, K: Render, L: Render, M: Render, N: Render, O: Render, P: Render, Q: Render, R: Render, S: Render, T: Render, U: Render, V: Render, W: Render> Render for Join<Sep, (A, B, C, D, E, F, G, H, I, J, K, L, M, N, O, P, Q, R, S, T, U, V, W)> {
    open spec fn text(&self) -> Seq<char> {
        join_text(
            self.sep.text(),
            seq![
                self.tup.0.text(),
                self.tup.1.text(),
                self.tup.2.text(),
                self.tup.3.text(),
                self.tup.4.text(),
                self.tup.5.text(),
                self.tup.6.text(),
                self.tup.7.text(),
                self.tup.8.text(),
                self.tup.9.text(),
                self.tup.10.text(),
                self.tup.11.text(),
                self.tup.12.text(),
                self.tup.13.text(),
                self.tup.14.text(),
                self.tup.15.text(),
                self.tup.16.text(),
                self.tup.17.text(),
                self.tup.18.text(),
                self.tup.19.text(),
                self.tup.20.text(),
                self.tup.21.text(),
                self.tup.22.text(),
            ],
        )
    }

    fn render(&self, out: &mut String) {
        let ghost before = out@;
        let ghost sep = self.sep.text();
        let ghost parts = seq![
            self.tup.0.text(),
            self.tup.1.text(),
            self.tup.2.text(),
            self.tup.3.text(),
            self.tup.4.text(),
            self.tup.5.text(),
            self.tup.6.text(),
            self.tup.7.text(),
            self.tup.8.text(),
            self.tup.9.text(),
            self.tup.10.text(),
            self.tup.11.text(),
            self.tup.12.text(),
            self.tup.13.text(),
            self.tup.14.text(),
            self.tup.15.text(),
            self.tup.16.text(),
            self.tup.17.text(),
            self.tup.18.text(),
            self.tup.19.text(),
            self.tup.20.text(),
            self.tup.21.text(),
            self.tup.22.text(),
        ];
        self.tup.0.render(out);
        assert(out@ == before + join_text(sep, parts.take(1)));
        self.sep.render(out);
        self.tup.1.render(out);
        proof {
            lemma_join_next(before, sep, parts, 1);
        }
        self.sep.render(out);
        self.tup.2.render(out);
        proof {
            lemma_join_next(before, sep, parts, 2);
        }
        self.sep.render(out);
        self.tup.3.render(out);
        proof {
            lemma_join_next(before, sep, parts, 3);
        }
        self.sep.render(out);
        self.tup.4.render(out);
        proof {
            lemma_join_next(before, sep, parts, 4);
        }
        self.sep.render(out);
        self.tup.5.render(out);
        proof {
            lemma_join_next(before, sep, parts, 5);
        }
        self.sep.render(out);
        self.tup.6.render(out);
        proof {
            lemma_join_next(before, sep, parts, 6);
        }
        self.sep.render(out);
        self.tup.7.render(out);
        proof {
            lemma_join_next(before, sep, parts, 7);
        }
        self.sep.render(out);
        self.tup.8.render(out);
        proof {
            lemma_join_next(before, sep, parts, 8);
        }
        self.sep.render(out);
        self.tup.9.render(out);
        proof {
            lemma_join_next(before, sep, parts, 9);
        }
        self.sep.render(out);
        self.tup.10.render(out);
        proof {
            lemma_join_next(before, sep, parts, 10);
        }
        self.sep.render(out);
        self.tup.11.render(out);
        proof {
            lemma_join_next(before, sep, parts, 11);
        }
        self.sep.render(out);
        self.tup.12.render(out);
        proof {
            lemma_join_next(before, sep, parts, 12);
        }
        self.sep.render(out);
        self.tup.13.render(out);
        proof {
            lemma_join_next(before, sep, parts, 13);
        }
        self.sep.render(out);
        self.tup.14.render(out);
        proof {
            lemma_join_next(before, sep, parts, 14);
        }
        self.sep.render(out);
        self.tup.15.render(out);
        proof {
            lemma_join_next(before, sep, parts, 15);
        }
        self.sep.render(out);
        self.tup.16.render(out);
        proof {
            lemma_join_next(before, sep, parts, 16);
        }
        self.sep.render(out);
        self.tup.17.render(out);
        proof {
            lemma_join_next(before, sep, parts, 17);
        }
        self.sep.render(out);
        self.tup.18.render(out);
        proof {
            lemma_join_next(before, sep, parts, 18);
        }
        self.sep.render(out);
        self.tup.19.render(out);
        proof {
            lemma_join_next(before, sep, parts, 19);
        }
        self.sep.render(out);
        self.tup.20.render(out);
        proof {
            lemma_join_next(before, sep, parts, 20);
        }
        self.sep.render(out);
        self.tup.21.render(out);
        proof {
            lemma_join_next(before, sep, parts, 21);
        }
        self.sep.render(out);
        self.tup.22.render(out);
        proof {
            lemma_join_next(before, sep, parts, 22);
            assert(parts.take(23) =~= parts);
        }
    }
}

impl<Sep: Render, A: Render, B: Render, C: Render, D: Render, E: Render, F: Render, G: Render, H: Render, I: Render, J: Render, K: Render, L: Render, M: Render, N: Render, O: Render, P: Render, Q: Render, R: Render, S: Render, T: Render, U: Render, V: Render, W: Render, X: Render> Render for Join<Sep, (A, B, C, D, E, F, G, H, I, J, K, L, M, N, O, P, Q, R, S, T, U, V, W, X)> {
    open spec fn text(&self) -> Seq<char> {
        join_text(
            self.sep.text(),
            seq![
                self.tup.0.text(),
                self.tup.1.text(),
                self.tup.2.text(),
                self.tup.3.text(),
                self.tup.4.text(),
                self.tup.5.text(),
                self.tup.6.text(),
                self.tup.7.text(),
                self.tup.8.text(),
                self.tup.9.text(),
                self.tup.10.text(),
                self.tup.11.text(),
                self.tup.12.text(),
                self.tup.13.text(),
                self.tup.14.text(),
                self.tup.15.text(),
                self.tup.16.text(),
                self.tup.17.text(),
                self.tup.18.text(),
                self.tup.19.text(),
                self.tup.20.text(),
                self.tup.21.text(),
                self.tup.22.text(),
                self.tup.23.text(),
            ],
        )
    }

    fn render(&self, out: &mut String) {
        let ghost before = out@;
        let ghost sep = self.sep.text();
        let ghost parts = seq![
            self.tup.0.text(),
            self.tup.1.text(),
            self.tup.2.text(),
            self.tup.3.text(),
            self.tup.4.text(),
            self.tup.5.text(),
            self.tup.6.text(),
            self.tup.7.text(),
            self.tup.8.text(),
            self.tup.9.text(),
            self.tup.10.text(),
            self.tup.11.text(),
            self.tup.12.text(),
            self.tup.13.text(),
            self.tup.14.text(),
            self.tup.15.text(),
            self.tup.16.text(),
            self.tup.17.text(),
            self.tup.18.text(),
            self.tup.19.text(),
            self.tup.20.text(),
            self.tup.21.text(),
            self.tup.22.text(),
            self.tup.23.text(),
        ];
        self.tup.0.render(out);
        assert(out@ == before + join_text(sep, parts.take(1)));
        self.sep.render(out);
        self.tup.1.render(out);
        proof {
            lemma_join_next(before, sep, parts, 1);
        }
        self.sep.render(out);
        self.tup.2.render(out);
        proof {
            lemma_join_next(before, sep, parts, 2);
        }
        self.sep.render(out);
        self.tup.3.render(out);
        proof {
            lemma_join_next(before, sep, parts, 3);
        }
        self.sep.render(out);
        self.tup.4.render(out);
        proof {
            lemma_join_next(before, sep, parts, 4);
        }
        self.sep.render(out);
        self.tup.5.render(out);
        proof {
            lemma_join_next(before, sep, parts, 5);
        }
        self.sep.render(out);
        self.tup.6.render(out);
        proof {
            lemma_join_next(before, sep, parts, 6);
        }
        self.sep.render(out);
        self.tup.7.render(out);
        proof {
            lemma_join_next(before, sep, parts, 7);
        }
        self.sep.render(out);
        self.tup.8.render(out);
        proof {
            lemma_join_next(before, sep, parts, 8);
        }
        self.sep.render(out);
        self.tup.9.render(out);
        proof {
            lemma_join_next(before, sep, parts, 9);
        }
        self.sep.render(out);
        self.tup.10.render(out);
        proof {
            lemma_join_next(before, sep, parts, 10);
        }
        self.sep.render(out);
        self.tup.11.render(out);
        proof {
            lemma_join_next(before, sep, parts, 11);
        }
        self.sep.render(out);
        self.tup.12.render(out);
        proof {
            lemma_join_next(before, sep, parts, 12);
        }
        self.sep.render(out);
        self.tup.13.render(out);
        proof {
            lemma_join_next(before, sep, parts, 13);
        }
        self.sep.render(out);
        self.tup.14.render(out);
        proof {
            lemma_join_next(before, sep, parts, 14);
        }
        self.sep.render(out);
        self.tup.15.render(out);
        proof {
            lemma_join_next(before, sep, parts, 15);
        }
        self.sep.render(out);
        self.tup.16.render(out);
        proof {
            lemma_join_next(before, sep, parts, 16);
        }
        self.sep.render(out);
        self.tup.17.render(out);
        proof {
            lemma_join_next(before, sep, parts, 17);
        }
        self.sep.render(out);
        self.tup.18.render(out);
        proof {
            lemma_join_next(before, sep, parts, 18);
        }
        self.sep.render(out);
        self.tup.19.render(out);
        proof {
            lemma_join_next(before, sep, parts, 19);
        }
        self.sep.render(out);
        self.tup.20.render(out);
        proof {
            lemma_join_next(before, sep, parts, 20);
        }
        self.sep.render(out);
        self.tup.21.render(out);
        proof {
            lemma_join_next(before, sep, parts, 21);
        }
        self.sep.render(out);
        self.tup.22.render(out);
        proof {
            lemma_join_next(before, sep, parts, 22);
        }
        self.sep.render(out);
        self.tup.23.render(out);
        proof {
            lemma_join_next(before, sep, parts, 23);
            assert(parts.take(24) =~= parts);
        }
    }
}

impl<Sep: Render, A: Render, B: Render, C: Render, D: Render, E: Render, F: Render, G: Render, H: Render, I: Render, J: Render, K: Render, L: Render, M: Render, N: Render, O: Render, P: Render, Q: Render, R: Render, S: Render, T: Render, U: Render, V: Render, W: Render, X: Render, Y: Render> Render for Join<Sep, (A, B, C, D, E, F, G, H, I, J, K, L, M, N, O, P, Q, R, S, T, U, V, W, X, Y)> {
    open spec fn text(&self) -> Seq<char> {
        join_text(
            self.sep.text(),
            seq![
                self.tup.0.text(),
                self.tup.1.text(),
                self.tup.2.text(),
                self.tup.3.text(),
                self.tup.4.text(),
                self.tup.5.text(),
                self.tup.6.text(),
                self.tup.7.text(),
                self.tup.8.text(),
                self.tup.9.text(),
                self.tup.10.text(),
                self.tup.11.text(),
                self.tup.12.text(),
                self.tup.13.text(),
                self.tup.14.text(),
                self.tup.15.text(),
                self.tup.16.text(),
                self.tup.17.text(),
                self.tup.18.text(),
                self.tup.19.text(),
                self.tup.20.text(),
                self.tup.21.text(),
                self.tup.22.text(),
                self.tup.23.text(),
                self.tup.24.text(),
            ],
        )
    }

    fn render(&self, out: &mut String) {
        let ghost before = out@;
        let ghost sep = self.sep.text();
        let ghost parts = seq![
            self.tup.0.text(),
            self.tup.1.text(),
            self.tup.2.text(),
            self.tup.3.text(),
            self.tup.4.text(),
            self.tup.5.text(),
            self.tup.6.text(),
            self.tup.7.text(),
            self.tup.8.text(),
            self.tup.9.text(),
            self.tup.10.text(),
            self.tup.11.text(),
            self.tup.12.text(),
            self.tup.13.text(),
            self.tup.14.text(),
            self.tup.15.text(),
            self.tup.16.text(),
            self.tup.17.text(),
            self.tup.18.text(),
            self.tup.19.text(),
            self.tup.20.text(),
            self.tup.21.text(),
            self.tup.22.text(),
            self.tup.23.text(),
            self.tup.24.text(),
        ];
        self.tup.0.render(out);
        assert(out@ == before + join_text(sep, parts.take(1)));
        self.sep.render(out);
        self.tup.1.render(out);
        proof {
            lemma_join_next(before, sep, parts, 1);
        }
        self.sep.render(out);
        self.tup.2.render(out);
        proof {
            lemma_join_next(before, sep, parts, 2);
        }
        self.sep.render(out);
        self.tup.3.render(out);
        proof {
            lemma_join_next(before, sep, parts, 3);
        }
        self.sep.render(out);
        self.tup.4.render(out);
        proof {
            lemma_join_next(before, sep, parts, 4);
        }
        self.sep.render(out);
        self.tup.5.render(out);
        proof {
            lemma_join_next(before, sep, parts, 5);
        }
        self.sep.render(out);
        self.tup.6.render(out);
        proof {
            lemma_join_next(before, sep, parts, 6);
        }
        self.sep.render(out);
        self.tup.7.render(out);
        proof {
            lemma_join_next(before, sep, parts, 7);
        }
        self.sep.render(out);
        self.tup.8.render(out);
        proof {
            lemma_join_next(before, sep, parts, 8);
        }
        self.sep.render(out);
        self.tup.9.render(out);
        proof {
            lemma_join_next(before, sep, parts, 9);
        }
        self.sep.render(out);
        self.tup.10.render(out);
        proof {
            lemma_join_next(before, sep, parts, 10);
        }
        self.sep.render(out);
        self.tup.11.render(out);
        proof {
            lemma_join_next(before, sep, parts, 11);
        }
        self.sep.render(out);
        self.tup.12.render(out);
        proof {
            lemma_join_next(before, sep, parts, 12);
        }
        self.sep.render(out);
        self.tup.13.render(out);
        proof {
            lemma_join_next(before, sep, parts, 13);
        }
        self.sep.render(out);
        self.tup.14.render(out);
        proof {
            lemma_join_next(before, sep, parts, 14);
        }
        self.sep.render(out);
        self.tup.15.render(out);
        proof {
            lemma_join_next(before, sep, parts, 15);
        }
        self.sep.render(out);
        self.tup.16.render(out);
        proof {
            lemma_join_next(before, sep, parts, 16);
        }
        self.sep.render(out);
        self.tup.17.render(out);
        proof {
            lemma_join_next(before, sep, parts, 17);
        }
        self.sep.render(out);
        self.tup.18.render(out);
        proof {
            lemma_join_next(before, sep, parts, 18);
        }
        self.sep.render(out);
        self.tup.19.render(out);
        proof {
            lemma_join_next(before, sep, parts, 19);
        }
        self.sep.render(out);
        self.tup.20.render(out);
        proof {
            lemma_join_next(before, sep, parts, 20);
        }
        self.sep.render(out);
        self.tup.21.render(out);
        proof {
            lemma_join_next(before, sep, parts, 21);
        }
        self.sep.render(out);
        self.tup.22.render(out);
        proof {
            lemma_join_next(before, sep, parts, 22);
        }
        self.sep.render(out);
        self.tup.23.render(out);
        proof {
            lemma_join_next(before, sep, parts, 23);
        }
        self.sep.render(out);
        self.tup.24.render(out);
        proof {
            lemma_join_next(before, sep, parts, 24);
            assert(parts.take(25) =~= parts);
        }
    }
}

impl<Sep: Render, A: Render, B: Render, C: Render, D: Render, E: Render, F: Render, G: Render, H: Render, I: Render, J: Render, K: Render, L: Render, M: Render, N: Render, O: Render, P: Render, Q: Render, R: Render, S: Render, T: Render, U: Render, V: Render, W: Render, X: Render, Y: Render, Z: Render> Render for Join<Sep, (A, B, C, D, E, F, G, H, I, J, K, L, M, N, O, P, Q, R, S, T, U, V, W, X, Y, Z)> {
    open spec fn text(&self) -> Seq<char> {
        join_text(
            self.sep.text(),
            seq![
                self.tup.0.text(),
                self.tup.1.text(),
                self.tup.2.text(),
                self.tup.3.text(),
                self.tup.4.text(),
                self.tup.5.text(),
                self.tup.6.text(),
                self.tup.7.text(),
                self.tup.8.text(),
                self.tup.9.text(),
                self.tup.10.text(),
                self.tup.11.text(),
                self.tup.12.text(),
                self.tup.13.text(),
                self.tup.14.text(),
                self.tup.15.text(),
                self.tup.16.text(),
                self.tup.17.text(),
                self.tup.18.text(),
                self.tup.19.text(),
                self.tup.20.text(),
                self.tup.21.text(),
                self.tup.22.text(),
                self.tup.23.text(),
                self.tup.24.text(),
                self.tup.25.text(),
            ],
        )
    }

    fn render(&self, out: &mut String) {
        let ghost before = out@;
        let ghost sep = self.sep.text();
        let ghost parts = seq![
            self.tup.0.text(),
            self.tup.1.text(),
            self.tup.2.text(),
            self.tup.3.text(),
            self.tup.4.text(),
            self.tup.5.text(),
            self.tup.6.text(),
            self.tup.7.text(),
            self.tup.8.text(),
            self.tup.9.text(),
            self.tup.10.text(),
            self.tup.11.text(),
            self.tup.12.text(),
            self.tup.13.text(),
            self.tup.14.text(),
            self.tup.15.text(),
            self.tup.16.text(),
            self.tup.17.text(),
            self.tup.18.text(),
            self.tup.19.text(),
            self.tup.20.text(),
            self.tup.21.text(),
            self.tup.22.text(),
            self.tup.23.text(),
            self.tup.24.text(),
            self.tup.25.text(),
        ];
        self.tup.0.render(out);
        assert(out@ == before + join_text(sep, parts.take(1)));
        self.sep.render(out);
        self.tup.1.render(out);
        proof {
            lemma_join_next(before, sep, parts, 1);
        }
        self.sep.render(out);
        self.tup.2.render(out);
        proof {
            lemma_join_next(before, sep, parts, 2);
        }
        self.sep.render(out);
        self.tup.3.render(out);
        proof {
            lemma_join_next(before, sep, parts, 3);
        }
        self.sep.render(out);
        self.tup.4.render(out);
        proof {
            lemma_join_next(before, sep, parts, 4);
        }
        self.sep.render(out);
        self.tup.5.render(out);
        proof {
            lemma_join_next(before, sep, parts, 5);
        }
        self.sep.render(out);
        self.tup.6.render(out);
        proof {
            lemma_join_next(before, sep, parts, 6);
        }
        self.sep.render(out);
        self.tup.7.render(out);
        proof {
            lemma_join_next(before, sep, parts, 7);
        }
        self.sep.render(out);
        self.tup.8.render(out);
        proof {
            lemma_join_next(before, sep, parts, 8);
        }
        self.sep.render(out);
        self.tup.9.render(out);
        proof {
            lemma_join_next(before, sep, parts, 9);
        }
        self.sep.render(out);
        self.tup.10.render(out);
        proof {
            lemma_join_next(before, sep, parts, 10);
        }
        self.sep.render(out);
        self.tup.11.render(out);
        proof {
            lemma_join_next(before, sep, parts, 11);
        }
        self.sep.render(out);
        self.tup.12.render(out);
        proof {
            lemma_join_next(before, sep, parts, 12);
        }
        self.sep.render(out);
        self.tup.13.render(out);
        proof {
            lemma_join_next(before, sep, parts, 13);
        }
        self.sep.render(out);
        self.tup.14.render(out);
        proof {
            lemma_join_next(before, sep, parts, 14);
        }
        self.sep.render(out);
        self.tup.15.render(out);
        proof {
            lemma_join_next(before, sep, parts, 15);
        }
        self.sep.render(out);
        self.tup.16.render(out);
        proof {
            lemma_join_next(before, sep, parts, 16);
        }
        self.sep.render(out);
        self.tup.17.render(out);
        proof {
            lemma_join_next(before, sep, parts, 17);
        }
        self.sep.render(out);
        self.tup.18.render(out);
        proof {
            lemma_join_next(before, sep, parts, 18);
        }
        self.sep.render(out);
        self.tup.19.render(out);
        proof {
            lemma_join_next(before, sep, parts, 19);
        }
        self.sep.render(out);
        self.tup.20.render(out);
        proof {
            lemma_join_next(before, sep, parts, 20);
        }
        self.sep.render(out);
        self.tup.21.render(out);
        proof {
            lemma_join_next(before, sep, parts, 21);
        }
        self.sep.render(out);
        self.tup.22.render(out);
        proof {
            lemma_join_next(before, sep, parts, 22);
        }
        self.sep.render(out);
        self.tup.23.render(out);
        proof {
            lemma_join_next(before, sep, parts, 23);
        }
        self.sep.render(out);
        self.tup.24.render(out);
        proof {
            lemma_join_next(before, sep, parts, 24);
        }
        self.sep.render(out);
        self.tup.25.render(out);
        proof {
            lemma_join_next(before, sep, parts, 25);
            assert(parts.take(26) =~= parts);
        }
    }
}


} // verus!
