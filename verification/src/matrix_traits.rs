//! What an element type has to offer so that matrices of it can be added,
//! multiplied and compared with the identity.

use vstd::prelude::*;
use vstd::string::StringExecFns;

verus! {

/// Arithmetic on the elements of a matrix.
///
/// Each element stands for a mathematical value, and the three operations are
/// stated over those values. An operation may be undefined on some pairs of
/// values (a sum that leaves the range of a machine integer): `can_add`,
/// `can_sub` and `can_mul` say where it is defined.
pub trait MatrixElem: Sized + Clone {
    /// The mathematical values that elements stand for.
    type Value;

    /// The value that this element stands for.
    spec fn value(&self) -> Self::Value;

    spec fn can_add(a: Self::Value, b: Self::Value) -> bool;

    spec fn add_value(a: Self::Value, b: Self::Value) -> Self::Value;

    spec fn can_sub(a: Self::Value, b: Self::Value) -> bool;

    spec fn sub_value(a: Self::Value, b: Self::Value) -> Self::Value;

    spec fn can_mul(a: Self::Value, b: Self::Value) -> bool;

    spec fn mul_value(a: Self::Value, b: Self::Value) -> Self::Value;

    /// A clone stands for the value of the element it was cloned from.
    proof fn clone_keeps_value(source: Self, copy: Self)
        requires
            cloned(source, copy),
        ensures
            copy.value() == source.value(),
    ;

    fn add(self, rhs: Self) -> (sum: Self)
        requires
            Self::can_add(self.value(), rhs.value()),
        ensures
            sum.value() == Self::add_value(self.value(), rhs.value()),
    ;

    fn sub(self, rhs: Self) -> (difference: Self)
        requires
            Self::can_sub(self.value(), rhs.value()),
        ensures
            difference.value() == Self::sub_value(self.value(), rhs.value()),
    ;

    fn mul(self, rhs: Self) -> (product: Self)
        requires
            Self::can_mul(self.value(), rhs.value()),
        ensures
            product.value() == Self::mul_value(self.value(), rhs.value()),
    ;
}

/// The additive and the multiplicative identity of an element type.
pub trait MatrixZeroOne: Sized {
    /// This element is the additive identity.
    spec fn zero_value(&self) -> bool;

    /// This element is the multiplicative identity.
    spec fn one_value(&self) -> bool;

    fn zero() -> (z: Self)
        ensures
            z.zero_value(),
    ;

    fn is_zero(&self) -> (b: bool)
        ensures
            b == self.zero_value(),
    ;

    fn one() -> (o: Self)
        ensures
            o.one_value(),
    ;

    fn is_one(&self) -> (b: bool)
        ensures
            b == self.one_value(),
    ;
}

/// `needle` stands in `hay` from index `at` on.
pub open spec fn occurs_at(hay: Seq<char>, needle: Seq<char>, at: int) -> bool {
    0 <= at && at + needle.len() <= hay.len() && hay.subrange(at, at + needle.len()) == needle
}

/// `needle` stands somewhere in `hay`.
pub open spec fn occurs(hay: Seq<char>, needle: Seq<char>) -> bool {
    exists|at: int| occurs_at(hay, needle, at)
}

/// The least index from which `needle` stands in `hay`.
pub open spec fn first_occurrence(hay: Seq<char>, needle: Seq<char>) -> int {
    choose|at: int|
        occurs_at(hay, needle, at) && forall|before: int|
            0 <= before < at ==> !occurs_at(hay, needle, before)
}

/// `hay` with up to `count` occurrences of `needle` replaced by `with`,
/// found from left to right without overlap.
pub open spec fn replaced(hay: Seq<char>, needle: Seq<char>, with: Seq<char>, count: nat) -> Seq<
    char,
>
    decreases count,
{
    if count == 0 || !occurs(hay, needle) {
        hay
    } else {
        let at = first_occurrence(hay, needle);
        hay.subrange(0, at) + with + replaced(
            hay.subrange(at + needle.len(), hay.len() as int),
            needle,
            with,
            (count - 1) as nat,
        )
    }
}

/// `str::find` with a string slice as the pattern: it tells whether `needle`
/// stands in `hay`. The byte offset that comes with a match is not described.
#[verifier::external_body]
fn find(hay: &str, needle: &str) -> (found: Option<usize>)
    ensures
        found is Some <==> occurs(hay@, needle@),
{
    hay.find(needle)
}

/// `str::replacen` with a string slice as the pattern: the first `count`
/// matches of a pattern that is not empty, taken from left to right without
/// overlap, give way to `with`.
#[verifier::external_body]
fn replacen(hay: &str, needle: &str, with: &str, count: usize) -> (result: String)
    requires
        needle@.len() > 0,
    ensures
        result@ == replaced(hay@, needle@, with@, count as nat),
{
    hay.replacen(needle, with, count)
}

/// The symbolic difference `a - b`: `a` without its first `+b`, else without
/// its first `b+`, else the text `a-b`.
pub open spec fn symbolic_difference(a: Seq<char>, b: Seq<char>) -> Seq<char> {
    if occurs(a, seq!['+'] + b) {
        replaced(a, seq!['+'] + b, Seq::empty(), 1)
    } else if occurs(a, b + seq!['+']) {
        replaced(a, b + seq!['+'], Seq::empty(), 1)
    } else {
        a + seq!['-'] + b
    }
}

/// Strings as symbolic elements: sums and products are spelled out.
impl MatrixElem for String {
    type Value = Seq<char>;

    open spec fn value(&self) -> Seq<char> {
        self@
    }

    open spec fn can_add(a: Seq<char>, b: Seq<char>) -> bool {
        true
    }

    /// `a+b`
    open spec fn add_value(a: Seq<char>, b: Seq<char>) -> Seq<char> {
        a + seq!['+'] + b
    }

    open spec fn can_sub(a: Seq<char>, b: Seq<char>) -> bool {
        true
    }

    open spec fn sub_value(a: Seq<char>, b: Seq<char>) -> Seq<char> {
        symbolic_difference(a, b)
    }

    open spec fn can_mul(a: Seq<char>, b: Seq<char>) -> bool {
        true
    }

    /// `ab`
    open spec fn mul_value(a: Seq<char>, b: Seq<char>) -> Seq<char> {
        a + b
    }

    proof fn clone_keeps_value(source: Self, copy: Self) {
    }

    fn add(self, rhs: Self) -> (sum: Self) {
        proof {
            reveal_strlit("+");
        }
        assert("+"@ =~= seq!['+']);
        self.concat("+").concat(rhs.as_str())
    }

    fn sub(self, rhs: Self) -> (difference: Self) {
        proof {
            reveal_strlit("+");
            reveal_strlit("-");
            reveal_strlit("");
        }
        assert("+"@ =~= seq!['+']);
        assert("-"@ =~= seq!['-']);
        assert(""@ =~= Seq::<char>::empty());
        let s = String::from_str("+").concat(rhs.as_str());
        match find(self.as_str(), s.as_str()) {
            Some(_) => replacen(self.as_str(), s.as_str(), "", 1),
            None => {
                let s = rhs.clone().concat("+");
                match find(self.as_str(), s.as_str()) {
                    Some(_) => replacen(self.as_str(), s.as_str(), "", 1),
                    None => self.concat("-").concat(rhs.as_str()),
                }
            },
        }
    }

    fn mul(self, rhs: Self) -> (product: Self) {
        self.concat(rhs.as_str())
    }
}

} // verus!
