//! Which of several futures completed first.
use vstd::prelude::*;

verus! {

/// The winner of a race between two.
#[derive(Debug, Clone, PartialEq, Eq)]
pub enum Either2<A, B> {
    /// The first completed first.
    First(A),
    /// The second completed first.
    Second(B),
}

impl<A, B> Either2<A, B> {
    /// Whether the first one won.
    pub fn is_first(&self) -> (r: bool)
        ensures
            r == (*self is First),
    {
        matches!(self, Either2::First(_))
    }

    /// Whether the second one won.
    pub fn is_second(&self) -> (r: bool)
        ensures
            r == (*self is Second),
    {
        matches!(self, Either2::Second(_))
    }

    /// The index of the winner: 0 or 1.
    pub fn index(&self) -> (r: usize)
        ensures
            r == (if *self is First {
                0int
            } else {
                1int
            }),
    {
        match self {
            Either2::First(_) => 0,
            Either2::Second(_) => 1,
        }
    }
}

impl<T> Either2<T, T> {
    /// The index of the winner and its value.
    pub fn into_tuple(self) -> (r: (usize, T))
        ensures
            r == (match self {
                Either2::First(v) => (0usize, v),
                Either2::Second(v) => (1usize, v),
            }),
    {
        match self {
            Either2::First(v) => (0, v),
            Either2::Second(v) => (1, v),
        }
    }
}

/// The winner of a race between three.
#[derive(Debug, Clone, PartialEq, Eq)]
pub enum Either3<A, B, C> {
    /// The first completed first.
    First(A),
    /// The second completed first.
    Second(B),
    /// The third completed first.
    Third(C),
}

impl<A, B, C> Either3<A, B, C> {
    /// The index of the winner: 0, 1 or 2.
    pub fn index(&self) -> (r: usize)
        ensures
            r == (if *self is First {
                0int
            } else if *self is Second {
                1int
            } else {
                2int
            }),
    {
        match self {
            Either3::First(_) => 0,
            Either3::Second(_) => 1,
            Either3::Third(_) => 2,
        }
    }
}

impl<T> Either3<T, T, T> {
    /// The index of the winner and its value.
    pub fn into_tuple(self) -> (r: (usize, T))
        ensures
            r == (match self {
                Either3::First(v) => (0usize, v),
                Either3::Second(v) => (1usize, v),
                Either3::Third(v) => (2usize, v),
            }),
    {
        match self {
            Either3::First(v) => (0, v),
            Either3::Second(v) => (1, v),
            Either3::Third(v) => (2, v),
        }
    }
}

/// The index of a winner is its place in the race, and the value comes with it.
pub proof fn law_a_winner_has_its_place<T>(
    a: T,
    b: T,
    r: usize,
    s: usize,
    first: (usize, T),
    second: (usize, T),
    won: bool,
    lost: bool,
    late: bool,
    early: bool,
)
    requires
        call_ensures(Either2::<T, T>::index, (&Either2::First(a),), r),
        call_ensures(Either2::<T, T>::index, (&Either2::Second(b),), s),
        call_ensures(Either2::<T, T>::into_tuple, (Either2::First(a),), first),
        call_ensures(Either2::<T, T>::into_tuple, (Either2::Second(b),), second),
        call_ensures(Either2::<T, T>::is_first, (&Either2::First(a),), won),
        call_ensures(Either2::<T, T>::is_first, (&Either2::Second(b),), lost),
        call_ensures(Either2::<T, T>::is_second, (&Either2::Second(b),), late),
        call_ensures(Either2::<T, T>::is_second, (&Either2::First(a),), early),
    ensures
        r == 0 && s == 1,
        first == (0usize, a),
        second == (1usize, b),
        won && !lost,
        late && !early,
{
}

/// The same of a race between three.
pub proof fn law_a_winner_of_three_has_its_place<T>(
    v: T,
    i: usize,
    j: usize,
    k: usize,
    first: (usize, T),
    second: (usize, T),
    third: (usize, T),
)
    requires
        call_ensures(Either3::<T, T, T>::index, (&Either3::First(v),), i),
        call_ensures(Either3::<T, T, T>::index, (&Either3::Second(v),), j),
        call_ensures(Either3::<T, T, T>::index, (&Either3::Third(v),), k),
        call_ensures(Either3::<T, T, T>::into_tuple, (Either3::First(v),), first),
        call_ensures(Either3::<T, T, T>::into_tuple, (Either3::Second(v),), second),
        call_ensures(Either3::<T, T, T>::into_tuple, (Either3::Third(v),), third),
    ensures
        i == 0 && j == 1 && k == 2,
        first == (0usize, v),
        second == (1usize, v),
        third == (2usize, v),
{
}

} // verus!
