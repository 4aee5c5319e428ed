//! Tuples of projections: what `select` takes to ask for several columns.
//!
//! A tuple of two to twenty-six projections over one source is a projection
//! over that source. Its value is the tuple of its members' values, and its
//! SQL is the members' SQL in the order written, joined by `", "`.
use vstd::prelude::*;
use crate::common::{Projection, Render, ToSql, sstr};
use crate::common::join::{Join, join_text};

verus! {

/// What stands between two members of a select list: a comma and a space.
pub open spec fn list_separator() -> Seq<char> {
    seq![',', ' ']
}

fn list_sep() -> (s: sstr)
    ensures
        s.text() == list_separator(),
{
    proof {
        reveal_strlit(", ");
    }
    let s = ", ";
    assert(s@ =~= list_separator());
    s
}

impl<Src, A: Projection<Src>, B: Projection<Src>> Projection<Src> for (A, B) {
    type Value = (A::Value, B::Value);
}

impl<A: ToSql, B: ToSql> ToSql for (A, B) {
    type Sql = Join<sstr, (A::Sql, B::Sql)>;

    open spec fn sql_text(&self) -> Seq<char> {
        join_text(
            list_separator(),
            seq![
                self.0.sql_text(),
                self.1.sql_text(),
            ],
        )
    }

    fn sql(&self) -> Self::Sql {
        Join {
            sep: list_sep(),
            tup: (
                self.0.sql(),
                self.1.sql(),
            ),
        }
    }
}

impl<Src, A: Projection<Src>, B: Projection<Src>, C: Projection<Src>> Projection<Src> for (A, B, C) {
    type Value = (A::Value, B::Value, C::Value);
}

impl<A: ToSql, B: ToSql, C: ToSql> ToSql for (A, B, C) {
    type Sql = Join<sstr, (A::Sql, B::Sql, C::Sql)>;

    open spec fn sql_text(&self) -> Seq<char> {
        join_text(
            list_separator(),
            seq![
                self.0.sql_text(),
                self.1.sql_text(),
                self.2.sql_text(),
            ],
        )
    }

    fn sql(&self) -> Self::Sql {
        Join {
            sep: list_sep(),
            tup: (
                self.0.sql(),
                self.1.sql(),
                self.2.sql(),
            ),
        }
    }
}

impl<Src, A: Projection<Src>, B: Projection<Src>, C: Projection<Src>, D: Projection<Src>> Projection<Src> for (A, B, C, D) {
    type Value = (A::Value, B::Value, C::Value, D::Value);
}

impl<A: ToSql, B: ToSql, C: ToSql, D: ToSql> ToSql for (A, B, C, D) {
    type Sql = Join<sstr, (A::Sql, B::Sql, C::Sql, D::Sql)>;

    open spec fn sql_text(&self) -> Seq<char> {
        join_text(
            list_separator(),
            seq![
                self.0.sql_text(),
                self.1.sql_text(),
                self.2.sql_text(),
                self.3.sql_text(),
            ],
        )
    }

    fn sql(&self) -> Self::Sql {
        Join {
            sep: list_sep(),
            tup: (
                self.0.sql(),
                self.1.sql(),
                self.2.sql(),
                self.3.sql(),
            ),
        }
    }
}

impl<Src, A: Projection<Src>, B: Projection<Src>, C: Projection<Src>, D: Projection<Src>, E: Projection<Src>> Projection<Src> for (A, B, C, D, E) {
    type Value = (A::Value, B::Value, C::Value, D::Value, E::Value);
}

impl<A: ToSql, B: ToSql, C: ToSql, D: ToSql, E: ToSql> ToSql for (A, B, C, D, E) {
    type Sql = Join<sstr, (A::Sql, B::Sql, C::Sql, D::Sql, E::Sql)>;

    open spec fn sql_text(&self) -> Seq<char> {
        join_text(
            list_separator(),
            seq![
                self.0.sql_text(),
                self.1.sql_text(),
                self.2.sql_text(),
                self.3.sql_text(),
                self.4.sql_text(),
            ],
        )
    }

    fn sql(&self) -> Self::Sql {
        Join {
            sep: list_sep(),
            tup: (
                self.0.sql(),
                self.1.sql(),
                self.2.sql(),
                self.3.sql(),
                self.4.sql(),
            ),
        }
    }
}

impl<Src, A: Projection<Src>, B: Projection<Src>, C: Projection<Src>, D: Projection<Src>, E: Projection<Src>, F: Projection<Src>> Projection<Src> for (A, B, C, D, E, F) {
    type Value = (A::Value, B::Value, C::Value, D::Value, E::Value, F::Value);
}

impl<A: ToSql, B: ToSql, C: ToSql, D: ToSql, E: ToSql, F: ToSql> ToSql for (A, B, C, D, E, F) {
    type Sql = Join<sstr, (A::Sql, B::Sql, C::Sql, D::Sql, E::Sql, F::Sql)>;

    open spec fn sql_text(&self) -> Seq<char> {
        join_text(
            list_separator(),
            seq![
                self.0.sql_text(),
                self.1.sql_text(),
                self.2.sql_text(),
                self.3.sql_text(),
                self.4.sql_text(),
                self.5.sql_text(),
            ],
        )
    }

    fn sql(&self) -> Self::Sql {
        Join {
            sep: list_sep(),
            tup: (
                self.0.sql(),
                self.1.sql(),
                self.2.sql(),
                self.3.sql(),
                self.4.sql(),
                self.5.sql(),
            ),
        }
    }
}

impl<Src, A: Projection<Src>, B: Projection<Src>, C: Projection<Src>, D: Projection<Src>, E: Projection<Src>, F: Projection<Src>, G: Projection<Src>> Projection<Src> for (A, B, C, D, E, F, G) {
    type Value = (A::Value, B::Value, C::Value, D::Value, E::Value, F::Value, G::Value);
}

impl<A: ToSql, B: ToSql, C: ToSql, D: ToSql, E: ToSql, F: ToSql, G: ToSql> ToSql for (A, B, C, D, E, F, G) {
    type Sql = Join<sstr, (A::Sql, B::Sql, C::Sql, D::Sql, E::Sql, F::Sql, G::Sql)>;

    open spec fn sql_text(&self) -> Seq<char> {
        join_text(
            list_separator(),
            seq![
                self.0.sql_text(),
                self.1.sql_text(),
                self.2.sql_text(),
                self.3.sql_text(),
                self.4.sql_text(),
                self.5.sql_text(),
                self.6.sql_text(),
            ],
        )
    }

    fn sql(&self) -> Self::Sql {
        Join {
            sep: list_sep(),
            tup: (
                self.0.sql(),
                self.1.sql(),
                self.2.sql(),
                self.3.sql(),
                self.4.sql(),
                self.5.sql(),
                self.6.sql(),
            ),
        }
    }
}

impl<Src, A: Projection<Src>, B: Projection<Src>, C: Projection<Src>, D: Projection<Src>, E: Projection<Src>, F: Projection<Src>, G: Projection<Src>, H: Projection<Src>> Projection<Src> for (A, B, C, D, E, F, G, H) {
    type Value = (A::Value, B::Value, C::Value, D::Value, E::Value, F::Value, G::Value, H::Value);
}

impl<A: ToSql, B: ToSql, C: ToSql, D: ToSql, E: ToSql, F: ToSql, G: ToSql, H: ToSql> ToSql for (A, B, C, D, E, F, G, H) {
    type Sql = Join<sstr, (A::Sql, B::Sql, C::Sql, D::Sql, E::Sql, F::Sql, G::Sql, H::Sql)>;

    open spec fn sql_text(&self) -> Seq<char> {
        join_text(
            list_separator(),
            seq![
                self.0.sql_text(),
                self.1.sql_text(),
                self.2.sql_text(),
                self.3.sql_text(),
                self.4.sql_text(),
                self.5.sql_text(),
                self.6.sql_text(),
                self.7.sql_text(),
            ],
        )
    }

    fn sql(&self) -> Self::Sql {
        Join {
            sep: list_sep(),
            tup: (
                self.0.sql(),
                self.1.sql(),
                self.2.sql(),
                self.3.sql(),
                self.4.sql(),
                self.5.sql(),
                self.6.sql(),
                self.7.sql(),
            ),
        }
    }
}

impl<Src, A: Projection<Src>, B: Projection<Src>, C: Projection<Src>, D: Projection<Src>, E: Projection<Src>, F: Projection<Src>, G: Projection<Src>, H: Projection<Src>, I: Projection<Src>> Projection<Src> for (A, B, C, D, E, F, G, H, I) {
    type Value = (A::Value, B::Value, C::Value, D::Value, E::Value, F::Value, G::Value, H::Value, I::Value);
}

impl<A: ToSql, B: ToSql, C: ToSql, D: ToSql, E: ToSql, F: ToSql, G: ToSql, H: ToSql, I: ToSql> ToSql for (A, B, C, D, E, F, G, H, I) {
    type Sql = Join<sstr, (A::Sql, B::Sql, C::Sql, D::Sql, E::Sql, F::Sql, G::Sql, H::Sql, I::Sql)>;

    open spec fn sql_text(&self) -> Seq<char> {
        join_text(
            list_separator(),
            seq![
                self.0.sql_text(),
                self.1.sql_text(),
                self.2.sql_text(),
                self.3.sql_text(),
                self.4.sql_text(),
                self.5.sql_text(),
                self.6.sql_text(),
                self.7.sql_text(),
                self.8.sql_text(),
            ],
        )
    }

    fn sql(&self) -> Self::Sql {
        Join {
            sep: list_sep(),
            tup: (
                self.0.sql(),
                self.1.sql(),
                self.2.sql(),
                self.3.sql(),
                self.4.sql(),
                self.5.sql(),
                self.6.sql(),
                self.7.sql(),
                self.8.sql(),
            ),
        }
    }
}

impl<Src, A: Projection<Src>, B: Projection<Src>, C: Projection<Src>, D: Projection<Src>, E: Projection<Src>, F: Projection<Src>, G: Projection<Src>, H: Projection<Src>, I: Projection<Src>, J: Projection<Src>> Projection<Src> for (A, B, C, D, E, F, G, H, I, J) {
    type Value = (A::Value, B::Value, C::Value, D::Value, E::Value, F::Value, G::Value, H::Value, I::Value, J::Value);
}

impl<A: ToSql, B: ToSql, C: ToSql, D: ToSql, E: ToSql, F: ToSql, G: ToSql, H: ToSql, I: ToSql, J: ToSql> ToSql for (A, B, C, D, E, F, G, H, I, J) {
    type Sql = Join<sstr, (A::Sql, B::Sql, C::Sql, D::Sql, E::Sql, F::Sql, G::Sql, H::Sql, I::Sql, J::Sql)>;

    open spec fn sql_text(&self) -> Seq<char> {
        join_text(
            list_separator(),
            seq![
                self.0.sql_text(),
                self.1.sql_text(),
                self.2.sql_text(),
                self.3.sql_text(),
                self.4.sql_text(),
                self.5.sql_text(),
                self.6.sql_text(),
                self.7.sql_text(),
                self.8.sql_text(),
                self.9.sql_text(),
            ],
        )
    }

    fn sql(&self) -> Self::Sql {
        Join {
            sep: list_sep(),
            tup: (
                self.0.sql(),
                self.1.sql(),
                self.2.sql(),
                self.3.sql(),
                self.4.sql(),
                self.5.sql(),
                self.6.sql(),
                self.7.sql(),
                self.8.sql(),
                self.9.sql(),
            ),
        }
    }
}

impl<Src, A: Projection<Src>, B: Projection<Src>, C: Projection<Src>, D: Projection<Src>, E: Projection<Src>, F: Projection<Src>, G: Projection<Src>, H: Projection<Src>, I: Projection<Src>, J: Projection<Src>, K: Projection<Src>> Projection<Src> for (A, B, C, D, E, F, G, H, I, J, K) {
    type Value = (A::Value, B::Value, C::Value, D::Value, E::Value, F::Value, G::Value, H::Value, I::Value, J::Value, K::Value);
}

impl<A: ToSql, B: ToSql, C: ToSql, D: ToSql, E: ToSql, F: ToSql, G: ToSql, H: ToSql, I: ToSql, J: ToSql, K: ToSql> ToSql for (A, B, C, D, E, F, G, H, I, J, K) {
    type Sql = Join<sstr, (A::Sql, B::Sql, C::Sql, D::Sql, E::Sql, F::Sql, G::Sql, H::Sql, I::Sql, J::Sql, K::Sql)>;

    open spec fn sql_text(&self) -> Seq<char> {
        join_text(
            list_separator(),
            seq![
                self.0.sql_text(),
                self.1.sql_text(),
                self.2.sql_text(),
                self.3.sql_text(),
                self.4.sql_text(),
                self.5.sql_text(),
                self.6.sql_text(),
                self.7.sql_text(),
                self.8.sql_text(),
                self.9.sql_text(),
                self.10.sql_text(),
            ],
        )
    }

    fn sql(&self) -> Self::Sql {
        Join {
            sep: list_sep(),
            tup: (
                self.0.sql(),
                self.1.sql(),
                self.2.sql(),
                self.3.sql(),
                self.4.sql(),
                self.5.sql(),
                self.6.sql(),
                self.7.sql(),
                self.8.sql(),
                self.9.sql(),
                self.10.sql(),
            ),
        }
    }
}

impl<Src, A: Projection<Src>, B: Projection<Src>, C: Projection<Src>, D: Projection<Src>, E: Projection<Src>, F: Projection<Src>, G: Projection<Src>, H: Projection<Src>, I: Projection<Src>, J: Projection<Src>, K: Projection<Src>, L: Projection<Src>> Projection<Src> for (A, B, C, D, E, F, G, H, I, J, K, L) {
    type Value = (A::Value, B::Value, C::Value, D::Value, E::Value, F::Value, G::Value, H::Value, I::Value, J::Value, K::Value, L::Value);
}

impl<A: ToSql, B: ToSql, C: ToSql, D: ToSql, E: ToSql, F: ToSql, G: ToSql, H: ToSql, I: ToSql, J: ToSql, K: ToSql, L: ToSql> ToSql for (A, B, C, D, E, F, G, H, I, J, K, L) {
    type Sql = Join<sstr, (A::Sql, B::Sql, C::Sql, D::Sql, E::Sql, F::Sql, G::Sql, H::Sql, I::Sql, J::Sql, K::Sql, L::Sql)>;

    open spec fn sql_text(&self) -> Seq<char> {
        join_text(
            list_separator(),
            seq![
                self.0.sql_text(),
                self.1.sql_text(),
                self.2.sql_text(),
                self.3.sql_text(),
                self.4.sql_text(),
                self.5.sql_text(),
                self.6.sql_text(),
                self.7.sql_text(),
                self.8.sql_text(),
                self.9.sql_text(),
                self.10.sql_text(),
                self.11.sql_text(),
            ],
        )
    }

    fn sql(&self) -> Self::Sql {
        Join {
            sep: list_sep(),
            tup: (
                self.0.sql(),
                self.1.sql(),
                self.2.sql(),
                self.3.sql(),
                self.4.sql(),
                self.5.sql(),
                self.6.sql(),
                self.7.sql(),
                self.8.sql(),
                self.9.sql(),
                self.10.sql(),
                self.11.sql(),
            ),
        }
    }
}

impl<Src, A: Projection<Src>, B: Projection<Src>, C: Projection<Src>, D: Projection<Src>, E: Projection<Src>, F: Projection<Src>, G: Projection<Src>, H: Projection<Src>, I: Projection<Src>, J: Projection<Src>, K: Projection<Src>, L: Projection<Src>, M: Projection<Src>> Projection<Src> for (A, B, C, D, E, F, G, H, I, J, K, L, M) {
    type Value = (A::Value, B::Value, C::Value, D::Value, E::Value, F::Value, G::Value, H::Value, I::Value, J::Value, K::Value, L::Value, M::Value);
}

impl<A: ToSql, B: ToSql, C: ToSql, D: ToSql, E: ToSql, F: ToSql, G: ToSql, H: ToSql, I: ToSql, J: ToSql, K: ToSql, L: ToSql, M: ToSql> ToSql for (A, B, C, D, E, F, G, H, I, J, K, L, M) {
    type Sql = Join<sstr, (A::Sql, B::Sql, C::Sql, D::Sql, E::Sql, F::Sql, G::Sql, H::Sql, I::Sql, J::Sql, K::Sql, L::Sql, M::Sql)>;

    open spec fn sql_text(&self) -> Seq<char> {
        join_text(
            list_separator(),
            seq![
                self.0.sql_text(),
                self.1.sql_text(),
                self.2.sql_text(),
                self.3.sql_text(),
                self.4.sql_text(),
                self.5.sql_text(),
                self.6.sql_text(),
                self.7.sql_text(),
                self.8.sql_text(),
                self.9.sql_text(),
                self.10.sql_text(),
                self.11.sql_text(),
                self.12.sql_text(),
            ],
        )
    }

    fn sql(&self) -> Self::Sql {
        Join {
            sep: list_sep(),
            tup: (
                self.0.sql(),
                self.1.sql(),
                self.2.sql(),
                self.3.sql(),
                self.4.sql(),
                self.5.sql(),
                self.6.sql(),
                self.7.sql(),
                self.8.sql(),
                self.9.sql(),
                self.10.sql(),
                self.11.sql(),
                self.12.sql(),
            ),
        }
    }
}

impl<Src, A: Projection<Src>, B: Projection<Src>, C: Projection<Src>, D: Projection<Src>, E: Projection<Src>, F: Projection<Src>, G: Projection<Src>, H: Projection<Src>, I: Projection<Src>, J: Projection<Src>, K: Projection<Src>, L: Projection<Src>, M: Projection<Src>, N: Projection<Src>> Projection<Src> for (A, B, C, D, E, F, G, H, I, J, K, L, M, N) {
    type Value = (A::Value, B::Value, C::Value, D::Value, E::Value, F::Value, G::Value, H::Value, I::Value, J::Value, K::Value, L::Value, M::Value, N::Value);
}

impl<A: ToSql, B: ToSql, C: ToSql, D: ToSql, E: ToSql, F: ToSql, G: ToSql, H: ToSql, I: ToSql, J: ToSql, K: ToSql, L: ToSql, M: ToSql, N: ToSql> ToSql for (A, B, C, D, E, F, G, H, I, J, K, L, M, N) {
    type Sql = Join<sstr, (A::Sql, B::Sql, C::Sql, D::Sql, E::Sql, F::Sql, G::Sql, H::Sql, I::Sql, J::Sql, K::Sql, L::Sql, M::Sql, N::Sql)>;

    open spec fn sql_text(&self) -> Seq<char> {
        join_text(
            list_separator(),
            seq![
                self.0.sql_text(),
                self.1.sql_text(),
                self.2.sql_text(),
                self.3.sql_text(),
                self.4.sql_text(),
                self.5.sql_text(),
                self.6.sql_text(),
                self.7.sql_text(),
                self.8.sql_text(),
                self.9.sql_text(),
                self.10.sql_text(),
                self.11.sql_text(),
                self.12.sql_text(),
                self.13.sql_text(),
            ],
        )
    }

    fn sql(&self) -> Self::Sql {
        Join {
            sep: list_sep(),
            tup: (
                self.0.sql(),
                self.1.sql(),
                self.2.sql(),
                self.3.sql(),
                self.4.sql(),
                self.5.sql(),
                self.6.sql(),
                self.7.sql(),
                self.8.sql(),
                self.9.sql(),
                self.10.sql(),
                self.11.sql(),
                self.12.sql(),
                self.13.sql(),
            ),
        }
    }
}

impl<Src, A: Projection<Src>, B: Projection<Src>, C: Projection<Src>, D: Projection<Src>, E: Projection<Src>, F: Projection<Src>, G: Projection<Src>, H: Projection<Src>, I: Projection<Src>, J: Projection<Src>, K: Projection<Src>, L: Projection<Src>, M: Projection<Src>, N: Projection<Src>, O: Projection<Src>> Projection<Src> for (A, B, C, D, E, F, G, H, I, J, K, L, M, N, O) {
    type Value = (A::Value, B::Value, C::Value, D::Value, E::Value, F::Value, G::Value, H::Value, I::Value, J::Value, K::Value, L::Value, M::Value, N::Value, O::Value);
}

impl<A: ToSql, B: ToSql, C: ToSql, D: ToSql, E: ToSql, F: ToSql, G: ToSql, H: ToSql, I: ToSql, J: ToSql, K: ToSql, L: ToSql, M: ToSql, N: ToSql, O: ToSql> ToSql for (A, B, C, D, E, F, G, H, I, J, K, L, M, N, O) {
    type Sql = Join<sstr, (A::Sql, B::Sql, C::Sql, D::Sql, E::Sql, F::Sql, G::Sql, H::Sql, I::Sql, J::Sql, K::Sql, L::Sql, M::Sql, N::Sql, O::Sql)>;

    open spec fn sql_text(&self) -> Seq<char> {
        join_text(
            list_separator(),
            seq![
                self.0.sql_text(),
                self.1.sql_text(),
                self.2.sql_text(),
                self.3.sql_text(),
                self.4.sql_text(),
                self.5.sql_text(),
                self.6.sql_text(),
                self.7.sql_text(),
                self.8.sql_text(),
                self.9.sql_text(),
                self.10.sql_text(),
                self.11.sql_text(),
                self.12.sql_text(),
                self.13.sql_text(),
                self.14.sql_text(),
            ],
        )
    }

    fn sql(&self) -> Self::Sql {
        Join {
            sep: list_sep(),
            tup: (
                self.0.sql(),
                self.1.sql(),
                self.2.sql(),
                self.3.sql(),
                self.4.sql(),
                self.5.sql(),
                self.6.sql(),
                self.7.sql(),
                self.8.sql(),
                self.9.sql(),
                self.10.sql(),
                self.11.sql(),
                self.12.sql(),
                self.13.sql(),
                self.14.sql(),
            ),
        }
    }
}

impl<Src, A: Projection<Src>, B: Projection<Src>, C: Projection<Src>, D: Projection<Src>, E: Projection<Src>, F: Projection<Src>, G: Projection<Src>, H: Projection<Src>, I: Projection<Src>, J: Projection<Src>, K: Projection<Src>, L: Projection<Src>, M: Projection<Src>, N: Projection<Src>, O: Projection<Src>, P: Projection<Src>> Projection<Src> for (A, B, C, D, E, F, G, H, I, J, K, L, M, N, O, P) {
    type Value = (A::Value, B::Value, C::Value, D::Value, E::Value, F::Value, G::Value, H::Value, I::Value, J::Value, K::Value, L::Value, M::Value, N::Value, O::Value, P::Value);
}

impl<A: ToSql, B: ToSql, C: ToSql, D: ToSql, E: ToSql, F: ToSql, G: ToSql, H: ToSql, I: ToSql, J: ToSql, K: ToSql, L: ToSql, M: ToSql, N: ToSql, O: ToSql, P: ToSql> ToSql for (A, B, C, D, E, F, G, H, I, J, K, L, M, N, O, P) {
    type Sql = Join<sstr, (A::Sql, B::Sql, C::Sql, D::Sql, E::Sql, F::Sql, G::Sql, H::Sql, I::Sql, J::Sql, K::Sql, L::Sql, M::Sql, N::Sql, O::Sql, P::Sql)>;

    open spec fn sql_text(&self) -> Seq<char> {
        join_text(
            list_separator(),
            seq![
                self.0.sql_text(),
                self.1.sql_text(),
                self.2.sql_text(),
                self.3.sql_text(),
                self.4.sql_text(),
                self.5.sql_text(),
                self.6.sql_text(),
                self.7.sql_text(),
                self.8.sql_text(),
                self.9.sql_text(),
                self.10.sql_text(),
                self.11.sql_text(),
                self.12.sql_text(),
                self.13.sql_text(),
                self.14.sql_text(),
                self.15.sql_text(),
            ],
        )
    }

    fn sql(&self) -> Self::Sql {
        Join {
            sep: list_sep(),
            tup: (
                self.0.sql(),
                self.1.sql(),
                self.2.sql(),
                self.3.sql(),
                self.4.sql(),
                self.5.sql(),
                self.6.sql(),
                self.7.sql(),
                self.8.sql(),
                self.9.sql(),
                self.10.sql(),
                self.11.sql(),
                self.12.sql(),
                self.13.sql(),
                self.14.sql(),
                self.15.sql(),
            ),
        }
    }
}

impl<Src, A: Projection<Src>, B: Projection<Src>, C: Projection<Src>, D: Projection<Src>, E: Projection<Src>, F: Projection<Src>, G: Projection<Src>, H: Projection<Src>, I: Projection<Src>, J: Projection<Src>, K: Projection<Src>, L: Projection<Src>, M: Projection<Src>, N: Projection<Src>, O: Projection<Src>, P: Projection<Src>, Q: Projection<Src>> Projection<Src> for (A, B, C, D, E, F, G, H, I, J, K, L, M, N, O, P, Q) {
    type Value = (A::Value, B::Value, C::Value, D::Value, E::Value, F::Value, G::Value, H::Value, I::Value, J::Value, K::Value, L::Value, M::Value, N::Value, O::Value, P::Value, Q::Value);
}

impl<A: ToSql, B: ToSql, C: ToSql, D: ToSql, E: ToSql, F: ToSql, G: ToSql, H: ToSql, I: ToSql, J: ToSql, K: ToSql, L: ToSql, M: ToSql, N: ToSql, O: ToSql, P: ToSql, Q: ToSql> ToSql for (A, B, C, D, E, F, G, H, I, J, K, L, M, N, O, P, Q) {
    type Sql = Join<sstr, (A::Sql, B::Sql, C::Sql, D::Sql, E::Sql, F::Sql, G::Sql, H::Sql, I::Sql, J::Sql, K::Sql, L::Sql, M::Sql, N::Sql, O::Sql, P::Sql, Q::Sql)>;

    open spec fn sql_text(&self) -> Seq<char> {
        join_text(
            list_separator(),
            seq![
                self.0.sql_text(),
                self.1.sql_text(),
                self.2.sql_text(),
                self.3.sql_text(),
                self.4.sql_text(),
                self.5.sql_text(),
                self.6.sql_text(),
                self.7.sql_text(),
                self.8.sql_text(),
                self.9.sql_text(),
                self.10.sql_text(),
                self.11.sql_text(),
                self.12.sql_text(),
                self.13.sql_text(),
                self.14.sql_text(),
                self.15.sql_text(),
                self.16.sql_text(),
            ],
        )
    }

    fn sql(&self) -> Self::Sql {
        Join {
            sep: list_sep(),
            tup: (
                self.0.sql(),
                self.1.sql(),
                self.2.sql(),
                self.3.sql(),
                self.4.sql(),
                self.5.sql(),
                self.6.sql(),
                self.7.sql(),
                self.8.sql(),
                self.9.sql(),
                self.10.sql(),
                self.11.sql(),
                self.12.sql(),
                self.13.sql(),
                self.14.sql(),
                self.15.sql(),
                self.16.sql(),
            ),
        }
    }
}

impl<Src, A: Projection<Src>, B: Projection<Src>, C: Projection<Src>, D: Projection<Src>, E: Projection<Src>, F: Projection<Src>, G: Projection<Src>, H: Projection<Src>, I: Projection<Src>, J: Projection<Src>, K: Projection<Src>, L: Projection<Src>, M: Projection<Src>, N: Projection<Src>, O: Projection<Src>, P: Projection<Src>, Q: Projection<Src>, R: Projection<Src>> Projection<Src> for (A, B, C, D, E, F, G, H, I, J, K, L, M, N, O, P, Q, R) {
    type Value = (A::Value, B::Value, C::Value, D::Value, E::Value, F::Value, G::Value, H::Value, I::Value, J::Value, K::Value, L::Value, M::Value, N::Value, O::Value, P::Value, Q::Value, R::Value);
}

impl<A: ToSql, B: ToSql, C: ToSql, D: ToSql, E: ToSql, F: ToSql, G: ToSql, H: ToSql, I: ToSql, J: ToSql, K: ToSql, L: ToSql, M: ToSql, N: ToSql, O: ToSql, P: ToSql, Q: ToSql, R: ToSql> ToSql for (A, B, C, D, E, F, G, H, I, J, K, L, M, N, O, P, Q, R) {
    type Sql = Join<sstr, (A::Sql, B::Sql, C::Sql, D::Sql, E::Sql, F::Sql, G::Sql, H::Sql, I::Sql, J::Sql, K::Sql, L::Sql, M::Sql, N::Sql, O::Sql, P::Sql, Q::Sql, R::Sql)>;

    open spec fn sql_text(&self) -> Seq<char> {
        join_text(
            list_separator(),
            seq![
                self.0.sql_text(),
                self.1.sql_text(),
                self.2.sql_text(),
                self.3.sql_text(),
                self.4.sql_text(),
                self.5.sql_text(),
                self.6.sql_text(),
                self.7.sql_text(),
                self.8.sql_text(),
                self.9.sql_text(),
                self.10.sql_text(),
                self.11.sql_text(),
                self.12.sql_text(),
                self.13.sql_text(),
                self.14.sql_text(),
                self.15.sql_text(),
                self.16.sql_text(),
                self.17.sql_text(),
            ],
        )
    }

    fn sql(&self) -> Self::Sql {
        Join {
            sep: list_sep(),
            tup: (
                self.0.sql(),
                self.1.sql(),
                self.2.sql(),
                self.3.sql(),
                self.4.sql(),
                self.5.sql(),
                self.6.sql(),
                self.7.sql(),
                self.8.sql(),
                self.9.sql(),
                self.10.sql(),
                self.11.sql(),
                self.12.sql(),
                self.13.sql(),
                self.14.sql(),
                self.15.sql(),
                self.16.sql(),
                self.17.sql(),
            ),
        }
    }
}

impl<Src, A: Projection<Src>, B: Projection<Src>, C: Projection<Src>, D: Projection<Src>, E: Projection<Src>, F: Projection<Src>, G: Projection<Src>, H: Projection<Src>, I: Projection<Src>, J: Projection<Src>, K: Projection<Src>, L: Projection<Src>, M: Projection<Src>, N: Projection<Src>, O: Projection<Src>, P: Projection<Src>, Q: Projection<Src>, R: Projection<Src>, S: Projection<Src>> Projection<Src> for (A, B, C, D, E, F, G, H, I, J, K, L, M, N, O, P, Q, R, S) {
    type Value = (A::Value, B::Value, C::Value, D::Value, E::Value, F::Value, G::Value, H::Value, I::Value, J::Value, K::Value, L::Value, M::Value, N::Value, O::Value, P::Value, Q::Value, R::Value, S::Value);
}

impl<A: ToSql, B: ToSql, C: ToSql, D: ToSql, E: ToSql, F: ToSql, G: ToSql, H: ToSql, I: ToSql, J: ToSql, K: ToSql, L: ToSql, M: ToSql, N: ToSql, O: ToSql, P: ToSql, Q: ToSql, R: ToSql, S: ToSql> ToSql for (A, B, C, D, E, F, G, H, I, J, K, L, M, N, O, P, Q, R, S) {
    type Sql = Join<sstr, (A::Sql, B::Sql, C::Sql, D::Sql, E::Sql, F::Sql, G::Sql, H::Sql, I::Sql, J::Sql, K::Sql, L::Sql, M::Sql, N::Sql, O::Sql, P::Sql, Q::Sql, R::Sql, S::Sql)>;

    open spec fn sql_text(&self) -> Seq<char> {
        join_text(
            list_separator(),
            seq![
                self.0.sql_text(),
                self.1.sql_text(),
                self.2.sql_text(),
                self.3.sql_text(),
                self.4.sql_text(),
                self.5.sql_text(),
                self.6.sql_text(),
                self.7.sql_text(),
                self.8.sql_text(),
                self.9.sql_text(),
                self.10.sql_text(),
                self.11.sql_text(),
                self.12.sql_text(),
                self.13.sql_text(),
                self.14.sql_text(),
                self.15.sql_text(),
                self.16.sql_text(),
                self.17.sql_text(),
                self.18.sql_text(),
            ],
        )
    }

    fn sql(&self) -> Self::Sql {
        Join {
            sep: list_sep(),
            tup: (
                self.0.sql(),
                self.1.sql(),
                self.2.sql(),
                self.3.sql(),
                self.4.sql(),
                self.5.sql(),
                self.6.sql(),
                self.7.sql(),
                self.8.sql(),
                self.9.sql(),
                self.10.sql(),
                self.11.sql(),
                self.12.sql(),
                self.13.sql(),
                self.14.sql(),
                self.15.sql(),
                self.16.sql(),
                self.17.sql(),
                self.18.sql(),
            ),
        }
    }
}

impl<Src, A: Projection<Src>, B: Projection<Src>, C: Projection<Src>, D: Projection<Src>, E: Projection<Src>, F: Projection<Src>, G: Projection<Src>, H: Projection<Src>, I: Projection<Src>, J: Projection<Src>, K: Projection<Src>, L: Projection<Src>, M: Projection<Src>, N: Projection<Src>, O: Projection<Src>, P: Projection<Src>, Q: Projection<Src>, R: Projection<Src>, S: Projection<Src>, T: Projection<Src>> Projection<Src> for (A, B, C, D, E, F, G, H, I, J, K, L, M, N, O, P, Q, R, S, T) {
    type Value = (A::Value, B::Value, C::Value, D::Value, E::Value, F::Value, G::Value, H::Value, I::Value, J::Value, K::Value, L::Value, M::Value, N::Value, O::Value, P::Value, Q::Value, R::Value, S::Value, T::Value);
}

impl<A: ToSql, B: ToSql, C: ToSql, D: ToSql, E: ToSql, F: ToSql, G: ToSql, H: ToSql, I: ToSql, J: ToSql, K: ToSql, L: ToSql, M: ToSql, N: ToSql, O: ToSql, P: ToSql, Q: ToSql, R: ToSql, S: ToSql, T: ToSql> ToSql for (A, B, C, D, E, F, G, H, I, J, K, L, M, N, O, P, Q, R, S, T) {
    type Sql = Join<sstr, (A::Sql, B::Sql, C::Sql, D::Sql, E::Sql, F::Sql, G::Sql, H::Sql, I::Sql, J::Sql, K::Sql, L::Sql, M::Sql, N::Sql, O::Sql, P::Sql, Q::Sql, R::Sql, S::Sql, T::Sql)>;

    open spec fn sql_text(&self) -> Seq<char> {
        join_text(
            list_separator(),
            seq![
                self.0.sql_text(),
                self.1.sql_text(),
                self.2.sql_text(),
                self.3.sql_text(),
                self.4.sql_text(),
                self.5.sql_text(),
                self.6.sql_text(),
                self.7.sql_text(),
                self.8.sql_text(),
                self.9.sql_text(),
                self.10.sql_text(),
                self.11.sql_text(),
                self.12.sql_text(),
                self.13.sql_text(),
                self.14.sql_text(),
                self.15.sql_text(),
                self.16.sql_text(),
                self.17.sql_text(),
                self.18.sql_text(),
                self.19.sql_text(),
            ],
        )
    }

    fn sql(&self) -> Self::Sql {
        Join {
            sep: list_sep(),
            tup: (
                self.0.sql(),
                self.1.sql(),
                self.2.sql(),
                self.3.sql(),
                self.4.sql(),
                self.5.sql(),
                self.6.sql(),
                self.7.sql(),
                self.8.sql(),
                self.9.sql(),
                self.10.sql(),
                self.11.sql(),
                self.12.sql(),
                self.13.sql(),
                self.14.sql(),
                self.15.sql(),
                self.16.sql(),
                self.17.sql(),
                self.18.sql(),
                self.19.sql(),
            ),
        }
    }
}

impl<Src, A: Projection<Src>, B: Projection<Src>, C: Projection<Src>, D: Projection<Src>, E: Projection<Src>, F: Projection<Src>, G: Projection<Src>, H: Projection<Src>, I: Projection<Src>, J: Projection<Src>, K: Projection<Src>, L: Projection<Src>, M: Projection<Src>, N: Projection<Src>, O: Projection<Src>, P: Projection<Src>, Q: Projection<Src>, R: Projection<Src>, S: Projection<Src>, T: Projection<Src>, U: Projection<Src>> Projection<Src> for (A, B, C, D, E, F, G, H, I, J, K, L, M, N, O, P, Q, R, S, T, U) {
    type Value = (A::Value, B::Value, C::Value, D::Value, E::Value, F::Value, G::Value, H::Value, I::Value, J::Value, K::Value, L::Value, M::Value, N::Value, O::Value, P::Value, Q::Value, R::Value, S::Value, T::Value, U::Value);
}

impl<A: ToSql, B: ToSql, C: ToSql, D: ToSql, E: ToSql, F: ToSql, G: ToSql, H: ToSql, I: ToSql, J: ToSql, K: ToSql, L: ToSql, M: ToSql, N: ToSql, O: ToSql, P: ToSql, Q: ToSql, R: ToSql, S: ToSql, T: ToSql, U: ToSql> ToSql for (A, B, C, D, E, F, G, H, I, J, K, L, M, N, O, P, Q, R, S, T, U) {
    type Sql = Join<sstr, (A::Sql, B::Sql, C::Sql, D::Sql, E::Sql, F::Sql, G::Sql, H::Sql, I::Sql, J::Sql, K::Sql, L::Sql, M::Sql, N::Sql, O::Sql, P::Sql, Q::Sql, R::Sql, S::Sql, T::Sql, U::Sql)>;

    open spec fn sql_text(&self) -> Seq<char> {
        join_text(
            list_separator(),
            seq![
                self.0.sql_text(),
                self.1.sql_text(),
                self.2.sql_text(),
                self.3.sql_text(),
                self.4.sql_text(),
                self.5.sql_text(),
                self.6.sql_text(),
                self.7.sql_text(),
                self.8.sql_text(),
                self.9.sql_text(),
                self.10.sql_text(),
                self.11.sql_text(),
                self.12.sql_text(),
                self.13.sql_text(),
                self.14.sql_text(),
                self.15.sql_text(),
                self.16.sql_text(),
                self.17.sql_text(),
                self.18.sql_text(),
                self.19.sql_text(),
                self.20.sql_text(),
            ],
        )
    }

    fn sql(&self) -> Self::Sql {
        Join {
            sep: list_sep(),
            tup: (
                self.0.sql(),
                self.1.sql(),
                self.2.sql(),
                self.3.sql(),
                self.4.sql(),
                self.5.sql(),
                self.6.sql(),
                self.7.sql(),
                self.8.sql(),
                self.9.sql(),
                self.10.sql(),
                self.11.sql(),
                self.12.sql(),
                self.13.sql(),
                self.14.sql(),
                self.15.sql(),
                self.16.sql(),
                self.17.sql(),
                self.18.sql(),
                self.19.sql(),
                self.20.sql(),
            ),
        }
    }
}

impl<Src, A: Projection<Src>, B: Projection<Src>, C: Projection<Src>, D: Projection<Src>, E: Projection<Src>, F: Projection<Src>, G: Projection<Src>, H: Projection<Src>, I: Projection<Src>, J: Projection<Src>, K: Projection<Src>, L: Projection<Src>, M: Projection<Src>, N: Projection<Src>, O: Projection<Src>, P: Projection<Src>, Q: Projection<Src>, R: Projection<Src>, S: Projection<Src>, T: Projection<Src>, U: Projection<Src>, V: Projection<Src>> Projection<Src> for (A, B, C, D, E, F, G, H, I, J, K, L, M, N, O, P, Q, R, S, T, U, V) {
    type Value = (A::Value, B::Value, C::Value, D::Value, E::Value, F::Value, G::Value, H::Value, I::Value, J::Value, K::Value, L::Value, M::Value, N::Value, O::Value, P::Value, Q::Value, R::Value, S::Value, T::Value, U::Value, V::Value);
}

impl<A: ToSql, B: ToSql, C: ToSql, D: ToSql, E: ToSql, F: ToSql, G: ToSql, H: ToSql, I: ToSql, J: ToSql, K: ToSql, L: ToSql, M: ToSql, N: ToSql, O: ToSql, P: ToSql, Q: ToSql, R: ToSql, S: ToSql, T: ToSql, U: ToSql, V: ToSql> ToSql for (A, B, C, D, E, F, G, H, I, J, K, L, M, N, O, P, Q, R, S, T, U, V) {
    type Sql = Join<sstr, (A::Sql, B::Sql, C::Sql, D::Sql, E::Sql, F::Sql, G::Sql, H::Sql, I::Sql, J::Sql, K::Sql, L::Sql, M::Sql, N::Sql, O::Sql, P::Sql, Q::Sql, R::Sql, S::Sql, T::Sql, U::Sql, V::Sql)>;

    open spec fn sql_text(&self) -> Seq<char> {
        join_text(
            list_separator(),
            seq![
                self.0.sql_text(),
                self.1.sql_text(),
                self.2.sql_text(),
                self.3.sql_text(),
                self.4.sql_text(),
                self.5.sql_text(),
                self.6.sql_text(),
                self.7.sql_text(),
                self.8.sql_text(),
                self.9.sql_text(),
                self.10.sql_text(),
                self.11.sql_text(),
                self.12.sql_text(),
                self.13.sql_text(),
                self.14.sql_text(),
                self.15.sql_text(),
                self.16.sql_text(),
                self.17.sql_text(),
                self.18.sql_text(),
                self.19.sql_text(),
                self.20.sql_text(),
                self.21.sql_text(),
            ],
        )
    }

    fn sql(&self) -> Self::Sql {
        Join {
            sep: list_sep(),
            tup: (
                self.0.sql(),
                self.1.sql(),
                self.2.sql(),
                self.3.sql(),
                self.4.sql(),
                self.5.sql(),
                self.6.sql(),
                self.7.sql(),
                self.8.sql(),
                self.9.sql(),
                self.10.sql(),
                self.11.sql(),
                self.12.sql(),
                self.13.sql(),
                self.14.sql(),
                self.15.sql(),
                self.16.sql(),
                self.17.sql(),
                self.18.sql(),
                self.19.sql(),
                self.20.sql(),
                self.21.sql(),
            ),
        }
    }
}

impl<Src, A: Projection<Src>, B: Projection<Src>, C: Projection<Src>, D: Projection<Src>, E: Projection<Src>, F: Projection<Src>, G: Projection<Src>, H: Projection<Src>, I: Projection<Src>, J: Projection<Src>, K: Projection<Src>, L: Projection<Src>, M: Projection<Src>, N: Projection<Src>, O: Projection<Src>, P: Projection<Src>, Q: Projection<Src>, R: Projection<Src>, S: Projection<Src>, T: Projection<Src>, U: Projection<Src>, V: Projection<Src>, W: Projection<Src>> Projection<Src> for (A, B, C, D, E, F, G, H, I, J, K, L, M, N, O, P, Q, R, S, T, U, V, W) {
    type Value = (A::Value, B::Value, C::Value, D::Value, E::Value, F::Value, G::Value, H::Value, I::Value, J::Value, K::Value, L::Value, M::Value, N::Value, O::Value, P::Value, Q::Value, R::Value, S::Value, T::Value, U::Value, V::Value, W::Value);
}

impl<A: ToSql, B: ToSql, C: ToSql, D: ToSql, E: ToSql, F: ToSql, G: ToSql, H: ToSql, I: ToSql, J: ToSql, K: ToSql, L: ToSql, M: ToSql, N: ToSql, O: ToSql, P: ToSql, Q: ToSql, R: ToSql, S: ToSql, T: ToSql, U: ToSql, V: ToSql, W: ToSql> ToSql for (A, B, C, D, E, F, G, H, I, J, K, L, M, N, O, P, Q, R, S, T, U, V, W) {
    type Sql = Join<sstr, (A::Sql, B::Sql, C::Sql, D::Sql, E::Sql, F::Sql, G::Sql, H::Sql, I::Sql, J::Sql, K::Sql, L::Sql, M::Sql, N::Sql, O::Sql, P::Sql, Q::Sql, R::Sql, S::Sql, T::Sql, U::Sql, V::Sql, W::Sql)>;

    open spec fn sql_text(&self) -> Seq<char> {
        join_text(
            list_separator(),
            seq![
                self.0.sql_text(),
                self.1.sql_text(),
                self.2.sql_text(),
                self.3.sql_text(),
                self.4.sql_text(),
                self.5.sql_text(),
                self.6.sql_text(),
                self.7.sql_text(),
                self.8.sql_text(),
                self.9.sql_text(),
                self.10.sql_text(),
                self.11.sql_text(),
                self.12.sql_text(),
                self.13.sql_text(),
                self.14.sql_text(),
                self.15.sql_text(),
                self.16.sql_text(),
                self.17.sql_text(),
                self.18.sql_text(),
                self.19.sql_text(),
                self.20.sql_text(),
                self.21.sql_text(),
                self.22.sql_text(),
            ],
        )
    }

    fn sql(&self) -> Self::Sql {
        Join {
            sep: list_sep(),
            tup: (
                self.0.sql(),
                self.1.sql(),
                self.2.sql(),
                self.3.sql(),
                self.4.sql(),
                self.5.sql(),
                self.6.sql(),
                self.7.sql(),
                self.8.sql(),
                self.9.sql(),
                self.10.sql(),
                self.11.sql(),
                self.12.sql(),
                self.13.sql(),
                self.14.sql(),
                self.15.sql(),
                self.16.sql(),
                self.17.sql(),
                self.18.sql(),
                self.19.sql(),
                self.20.sql(),
                self.21.sql(),
                self.22.sql(),
            ),
        }
    }
}

impl<Src, A: Projection<Src>, B: Projection<Src>, C: Projection<Src>, D: Projection<Src>, E: Projection<Src>, F: Projection<Src>, G: Projection<Src>, H: Projection<Src>, I: Projection<Src>, J: Projection<Src>, K: Projection<Src>, L: Projection<Src>, M: Projection<Src>, N: Projection<Src>, O: Projection<Src>, P: Projection<Src>, Q: Projection<Src>, R: Projection<Src>, S: Projection<Src>, T: Projection<Src>, U: Projection<Src>, V: Projection<Src>, W: Projection<Src>, X: Projection<Src>> Projection<Src> for (A, B, C, D, E, F, G, H, I, J, K, L, M, N, O, P, Q, R, S, T, U, V, W, X) {
    type Value = (A::Value, B::Value, C::Value, D::Value, E::Value, F::Value, G::Value, H::Value, I::Value, J::Value, K::Value, L::Value, M::Value, N::Value, O::Value, P::Value, Q::Value, R::Value, S::Value, T::Value, U::Value, V::Value, W::Value, X::Value);
}

impl<A: ToSql, B: ToSql, C: ToSql, D: ToSql, E: ToSql, F: ToSql, G: ToSql, H: ToSql, I: ToSql, J: ToSql, K: ToSql, L: ToSql, M: ToSql, N: ToSql, O: ToSql, P: ToSql, Q: ToSql, R: ToSql, S: ToSql, T: ToSql, U: ToSql, V: ToSql, W: ToSql, X: ToSql> ToSql for (A, B, C, D, E, F, G, H, I, J, K, L, M, N, O, P, Q, R, S, T, U, V, W, X) {
    type Sql = Join<sstr, (A::Sql, B::Sql, C::Sql, D::Sql, E::Sql, F::Sql, G::Sql, H::Sql, I::Sql, J::Sql, K::Sql, L::Sql, M::Sql, N::Sql, O::Sql, P::Sql, Q::Sql, R::Sql, S::Sql, T::Sql, U::Sql, V::Sql, W::Sql, X::Sql)>;

    open spec fn sql_text(&self) -> Seq<char> {
        join_text(
            list_separator(),
            seq![
                self.0.sql_text(),
                self.1.sql_text(),
                self.2.sql_text(),
                self.3.sql_text(),
                self.4.sql_text(),
                self.5.sql_text(),
                self.6.sql_text(),
                self.7.sql_text(),
                self.8.sql_text(),
                self.9.sql_text(),
                self.10.sql_text(),
                self.11.sql_text(),
                self.12.sql_text(),
                self.13.sql_text(),
                self.14.sql_text(),
                self.15.sql_text(),
                self.16.sql_text(),
                self.17.sql_text(),
                self.18.sql_text(),
                self.19.sql_text(),
                self.20.sql_text(),
                self.21.sql_text(),
                self.22.sql_text(),
                self.23.sql_text(),
            ],
        )
    }

    fn sql(&self) -> Self::Sql {
        Join {
            sep: list_sep(),
            tup: (
                self.0.sql(),
                self.1.sql(),
                self.2.sql(),
                self.3.sql(),
                self.4.sql(),
                self.5.sql(),
                self.6.sql(),
                self.7.sql(),
                self.8.sql(),
                self.9.sql(),
                self.10.sql(),
                self.11.sql(),
                self.12.sql(),
                self.13.sql(),
                self.14.sql(),
                self.15.sql(),
                self.16.sql(),
                self.17.sql(),
                self.18.sql(),
                self.19.sql(),
                self.20.sql(),
                self.21.sql(),
                self.22.sql(),
                self.23.sql(),
            ),
        }
    }
}

impl<Src, A: Projection<Src>, B: Projection<Src>, C: Projection<Src>, D: Projection<Src>, E: Projection<Src>, F: Projection<Src>, G: Projection<Src>, H: Projection<Src>, I: Projection<Src>, J: Projection<Src>, K: Projection<Src>, L: Projection<Src>, M: Projection<Src>, N: Projection<Src>, O: Projection<Src>, P: Projection<Src>, Q: Projection<Src>, R: Projection<Src>, S: Projection<Src>, T: Projection<Src>, U: Projection<Src>, V: Projection<Src>, W: Projection<Src>, X: Projection<Src>, Y: Projection<Src>> Projection<Src> for (A, B, C, D, E, F, G, H, I, J, K, L, M, N, O, P, Q, R, S, T, U, V, W, X, Y) {
    type Value = (A::Value, B::Value, C::Value, D::Value, E::Value, F::Value, G::Value, H::Value, I::Value, J::Value, K::Value, L::Value, M::Value, N::Value, O::Value, P::Value, Q::Value, R::Value, S::Value, T::Value, U::Value, V::Value, W::Value, X::Value, Y::Value);
}

impl<A: ToSql, B: ToSql, C: ToSql, D: ToSql, E: ToSql, F: ToSql, G: ToSql, H: ToSql, I: ToSql, J: ToSql, K: ToSql, L: ToSql, M: ToSql, N: ToSql, O: ToSql, P: ToSql, Q: ToSql, R: ToSql, S: ToSql, T: ToSql, U: ToSql, V: ToSql, W: ToSql, X: ToSql, Y: ToSql> ToSql for (A, B, C, D, E, F, G, H, I, J, K, L, M, N, O, P, Q, R, S, T, U, V, W, X, Y) {
    type Sql = Join<sstr, (A::Sql, B::Sql, C::Sql, D::Sql, E::Sql, F::Sql, G::Sql, H::Sql, I::Sql, J::Sql, K::Sql, L::Sql, M::Sql, N::Sql, O::Sql, P::Sql, Q::Sql, R::Sql, S::Sql, T::Sql, U::Sql, V::Sql, W::Sql, X::Sql, Y::Sql)>;

    open spec fn sql_text(&self) -> Seq<char> {
        join_text(
            list_separator(),
            seq![
                self.0.sql_text(),
                self.1.sql_text(),
                self.2.sql_text(),
                self.3.sql_text(),
                self.4.sql_text(),
                self.5.sql_text(),
                self.6.sql_text(),
                self.7.sql_text(),
                self.8.sql_text(),
                self.9.sql_text(),
                self.10.sql_text(),
                self.11.sql_text(),
                self.12.sql_text(),
                self.13.sql_text(),
                self.14.sql_text(),
                self.15.sql_text(),
                self.16.sql_text(),
                self.17.sql_text(),
                self.18.sql_text(),
                self.19.sql_text(),
                self.20.sql_text(),
                self.21.sql_text(),
                self.22.sql_text(),
                self.23.sql_text(),
                self.24.sql_text(),
            ],
        )
    }

    fn sql(&self) -> Self::Sql {
        Join {
            sep: list_sep(),
            tup: (
                self.0.sql(),
                self.1.sql(),
                self.2.sql(),
                self.3.sql(),
                self.4.sql(),
                self.5.sql(),
                self.6.sql(),
                self.7.sql(),
                self.8.sql(),
                self.9.sql(),
                self.10.sql(),
                self.11.sql(),
                self.12.sql(),
                self.13.sql(),
                self.14.sql(),
                self.15.sql(),
                self.16.sql(),
                self.17.sql(),
                self.18.sql(),
                self.19.sql(),
                self.20.sql(),
                self.21.sql(),
                self.22.sql(),
                self.23.sql(),
                self.24.sql(),
            ),
        }
    }
}

impl<Src, A: Projection<Src>, B: Projection<Src>, C: Projection<Src>, D: Projection<Src>, E: Projection<Src>, F: Projection<Src>, G: Projection<Src>, H: Projection<Src>, I: Projection<Src>, J: Projection<Src>, K: Projection<Src>, L: Projection<Src>, M: Projection<Src>, N: Projection<Src>, O: Projection<Src>, P: Projection<Src>, Q: Projection<Src>, R: Projection<Src>, S: Projection<Src>, T: Projection<Src>, U: Projection<Src>, V: Projection<Src>, W: Projection<Src>, X: Projection<Src>, Y: Projection<Src>, Z: Projection<Src>> Projection<Src> for (A, B, C, D, E, F, G, H, I, J, K, L, M, N, O, P, Q, R, S, T, U, V, W, X, Y, Z) {
    type Value = (A::Value, B::Value, C::Value, D::Value, E::Value, F::Value, G::Value, H::Value, I::Value, J::Value, K::Value, L::Value, M::Value, N::Value, O::Value, P::Value, Q::Value, R::Value, S::Value, T::Value, U::Value, V::Value, W::Value, X::Value, Y::Value, Z::Value);
}

impl<A: ToSql, B: ToSql, C: ToSql, D: ToSql, E: ToSql, F: ToSql, G: ToSql, H: ToSql, I: ToSql, J: ToSql, K: ToSql, L: ToSql, M: ToSql, N: ToSql, O: ToSql, P: ToSql, Q: ToSql, R: ToSql, S: ToSql, T: ToSql, U: ToSql, V: ToSql, W: ToSql, X: ToSql, Y: ToSql, Z: ToSql> ToSql for (A, B, C, D, E, F, G, H, I, J, K, L, M, N, O, P, Q, R, S, T, U, V, W, X, Y, Z) {
    type Sql = Join<sstr, (A::Sql, B::Sql, C::Sql, D::Sql, E::Sql, F::Sql, G::Sql, H::Sql, I::Sql, J::Sql, K::Sql, L::Sql, M::Sql, N::Sql, O::Sql, P::Sql, Q::Sql, R::Sql, S::Sql, T::Sql, U::Sql, V::Sql, W::Sql, X::Sql, Y::Sql, Z::Sql)>;

    open spec fn sql_text(&self) -> Seq<char> {
        join_text(
            list_separator(),
            seq![
                self.0.sql_text(),
                self.1.sql_text(),
                self.2.sql_text(),
                self.3.sql_text(),
                self.4.sql_text(),
                self.5.sql_text(),
                self.6.sql_text(),
                self.7.sql_text(),
                self.8.sql_text(),
                self.9.sql_text(),
                self.10.sql_text(),
                self.11.sql_text(),
                self.12.sql_text(),
                self.13.sql_text(),
                self.14.sql_text(),
                self.15.sql_text(),
                self.16.sql_text(),
                self.17.sql_text(),
                self.18.sql_text(),
                self.19.sql_text(),
                self.20.sql_text(),
                self.21.sql_text(),
                self.22.sql_text(),
                self.23.sql_text(),
                self.24.sql_text(),
                self.25.sql_text(),
            ],
        )
    }

    fn sql(&self) -> Self::Sql {
        Join {
            sep: list_sep(),
            tup: (
                self.0.sql(),
                self.1.sql(),
                self.2.sql(),
                self.3.sql(),
                self.4.sql(),
                self.5.sql(),
                self.6.sql(),
                self.7.sql(),
                self.8.sql(),
                self.9.sql(),
                self.10.sql(),
                self.11.sql(),
                self.12.sql(),
                self.13.sql(),
                self.14.sql(),
                self.15.sql(),
                self.16.sql(),
                self.17.sql(),
                self.18.sql(),
                self.19.sql(),
                self.20.sql(),
                self.21.sql(),
                self.22.sql(),
                self.23.sql(),
                self.24.sql(),
                self.25.sql(),
            ),
        }
    }
}


} // verus!
