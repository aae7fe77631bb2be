//! Random password generation from four character classes.

use rand::rngs::{OsRng, StdRng};
use rand::seq::SliceRandom;
use rand::SeedableRng;
use vstd::prelude::*;
use vstd::utf8::is_ascii_chars;

verus! {

/// Why no password was generated.
#[derive(Debug, Clone, Copy, PartialEq, Eq, Structural)]
pub enum GenPassError {
    /// The length is smaller than the number of selected classes, each of
    /// which must appear at least once.
    TooShort,
    /// Characters are asked for, but no class to draw them from is selected.
    NoCharacterClass,
    /// The operating system's random source could not be read.
    RandomUnavailable,
}

#[verifier::external_type_specification]
#[verifier::external_body]
pub struct ExStdRng(StdRng);

/// Upper-case letters, without `I` and `O`.
pub open spec fn upper_chars() -> Seq<char> {
    seq![
        'A', 'B', 'C', 'D', 'E', 'F', 'G', 'H', 'J', 'K', 'L', 'M',
        'N', 'P', 'Q', 'R', 'S', 'T', 'U', 'V', 'W', 'X', 'Y', 'Z',
    ]
}

/// Lower-case letters, without `l` and `o`.
pub open spec fn lower_chars() -> Seq<char> {
    seq![
        'a', 'b', 'c', 'd', 'e', 'f', 'g', 'h', 'i', 'j', 'k', 'm',
        'n', 'p', 'q', 'r', 's', 't', 'u', 'v', 'w', 'x', 'y', 'z',
    ]
}

/// Digits, without `0`.
pub open spec fn number_chars() -> Seq<char> {
    seq!['1', '2', '3', '4', '5', '6', '7', '8', '9']
}

/// Symbols.
pub open spec fn symbol_chars() -> Seq<char> {
    seq!['!', '@', '#', '$', '%', '&', '^', '*', '_']
}

proof fn lemma_classes_ascii(upper: bool, lower: bool, number: bool, symbol: bool)
    ensures
        forall|c: char|
            #![trigger selected_pool(upper, lower, number, symbol).contains(c)]
            selected_pool(upper, lower, number, symbol).contains(c) ==> c <= '\u{7f}',
        is_ascii_chars(upper_chars()),
        is_ascii_chars(lower_chars()),
        is_ascii_chars(number_chars()),
        is_ascii_chars(symbol_chars()),
{
    assert(is_ascii_chars(upper_chars()));
    assert(is_ascii_chars(lower_chars()));
    assert(is_ascii_chars(number_chars()));
    assert(is_ascii_chars(symbol_chars()));
    let pool = selected_pool(upper, lower, number, symbol);
    assert(is_ascii_chars(pool));
    assert forall|c: char| pool.contains(c) implies c <= '\u{7f}' by {
        let i = choose|i: int| 0 <= i < pool.len() && pool[i] == c;
    }
}

proof fn lemma_contains_concat(a: Seq<char>, b: Seq<char>, c: char)
    requires
        a.contains(c) || b.contains(c),
    ensures
        (a + b).contains(c),
{
    if a.contains(c) {
        let i = choose|i: int| 0 <= i < a.len() && a[i] == c;
        assert((a + b)[i] == c);
    } else {
        let i = choose|i: int| 0 <= i < b.len() && b[i] == c;
        assert((a + b)[a.len() + i] == c);
    }
}

/// The selected classes, in the order upper, lower, number, symbol.
pub open spec fn selected_classes(upper: bool, lower: bool, number: bool, symbol: bool) -> Seq<
    Seq<char>,
> {
    (if upper { seq![upper_chars()] } else { seq![] })
        + (if lower { seq![lower_chars()] } else { seq![] })
        + (if number { seq![number_chars()] } else { seq![] })
        + (if symbol { seq![symbol_chars()] } else { seq![] })
}

/// All characters of the selected classes.
pub open spec fn selected_pool(upper: bool, lower: bool, number: bool, symbol: bool) -> Seq<char> {
    (if upper { upper_chars() } else { seq![] })
        + (if lower { lower_chars() } else { seq![] })
        + (if number { number_chars() } else { seq![] })
        + (if symbol { symbol_chars() } else { seq![] })
}

fn upper_pool() -> (r: Vec<char>)
    ensures
        r@ == upper_chars(),
{
    let r = vec![
        'A', 'B', 'C', 'D', 'E', 'F', 'G', 'H', 'J', 'K', 'L', 'M',
        'N', 'P', 'Q', 'R', 'S', 'T', 'U', 'V', 'W', 'X', 'Y', 'Z',
    ];
    assert(r@ =~= upper_chars());
    r
}

fn lower_pool() -> (r: Vec<char>)
    ensures
        r@ == lower_chars(),
{
    let r = vec![
        'a', 'b', 'c', 'd', 'e', 'f', 'g', 'h', 'i', 'j', 'k', 'm',
        'n', 'p', 'q', 'r', 's', 't', 'u', 'v', 'w', 'x', 'y', 'z',
    ];
    assert(r@ =~= lower_chars());
    r
}

fn number_pool() -> (r: Vec<char>)
    ensures
        r@ == number_chars(),
{
    let r = vec!['1', '2', '3', '4', '5', '6', '7', '8', '9'];
    assert(r@ =~= number_chars());
    r
}

fn symbol_pool() -> (r: Vec<char>)
    ensures
        r@ == symbol_chars(),
{
    let r = vec!['!', '@', '#', '$', '%', '&', '^', '*', '_'];
    assert(r@ =~= symbol_chars());
    r
}

/// Relies on rand's `SeedableRng::from_rng` for `StdRng` fed by `OsRng`: a
/// generator seeded from the operating system's random source, or none when
/// that source cannot be read.
#[verifier::external_body]
fn seeded_rng() -> (r: Option<StdRng>) {
    StdRng::from_rng(OsRng).ok()
}

/// Relies on rand's `SliceRandom::choose`: one element of a non-empty slice,
/// drawn with the generator.
#[verifier::external_body]
fn choose_char(pool: &[char], rng: &mut StdRng) -> (r: char)
    requires
        pool@.len() > 0,
    ensures
        pool@.contains(r),
{
    *pool.choose(rng).unwrap()
}

/// Relies on `String::push`: appends one character.
#[verifier::external_body]
fn push_char(s: &mut String, c: char)
    ensures
        final(s)@ == old(s)@.push(c),
{
    s.push(c)
}

/// Draws one character of `class` into `password` and adds the class to
/// `pool`. Before and after, the `i`-th character of the password belongs to
/// the `i`-th drawn class, and every character belongs to the pool.
fn take_class(
    pool: &mut Vec<char>,
    password: &mut String,
    rng: &mut StdRng,
    class: Vec<char>,
    Ghost(classes): Ghost<Seq<Seq<char>>>,
)
    requires
        class@.len() > 0,
        is_ascii_chars(class@),
        is_ascii_chars(old(password)@),
        classes.len() == old(password)@.len(),
        forall|j: int| 0 <= j < classes.len() ==> #[trigger] classes[j].contains(old(password)@[j]),
        forall|j: int| 0 <= j < old(password)@.len() ==> old(pool)@.contains(#[trigger] old(password)@[j]),
    ensures
        final(pool)@ == old(pool)@ + class@,
        final(password)@.len() == old(password)@.len() + 1,
        is_ascii_chars(final(password)@),
        forall|j: int|
            0 <= j < classes.len() + 1 ==> #[trigger] classes.push(class@)[j].contains(final(password)@[j]),
        forall|j: int| 0 <= j < final(password)@.len() ==> final(pool)@.contains(#[trigger] final(password)@[j]),
{
    let c = choose_char(class.as_slice(), rng);
    let ghost pool_before = pool@;
    let ghost before = password@;
    push_char(password, c);
    let mut class = class;
    let ghost class_view = class@;
    pool.append(&mut class);
    proof {
        let i = choose|i: int| 0 <= i < class_view.len() && class_view[i] == c;
        assert forall|j: int| 0 <= j < password@.len() implies pool@.contains(#[trigger] password@[j])
            && (j < classes.len() + 1 ==> classes.push(class_view)[j].contains(password@[j])) by {
            if j < before.len() {
                assert(password@[j] == before[j]);
            }
            lemma_contains_concat(pool_before, class_view, password@[j]);
        }
    }
}

/// A random password of `length` characters. Each selected class gives one
/// of the first characters, in the order upper, lower, number, symbol; the
/// rest are drawn from all selected classes together. The length is checked
/// before any randomness is drawn.
pub fn process_genpass(length: u8, upper: bool, lower: bool, number: bool, symbol: bool) -> (r:
    Result<String, GenPassError>)
    ensures
        r == Err::<String, GenPassError>(GenPassError::TooShort) <==> length
            < selected_classes(upper, lower, number, symbol).len(),
        r == Err::<String, GenPassError>(GenPassError::NoCharacterClass) <==> (selected_classes(
            upper,
            lower,
            number,
            symbol,
        ).len() == 0 && length > 0),
        r is Err ==> r == Err::<String, GenPassError>(GenPassError::TooShort) || r == Err::<
            String,
            GenPassError,
        >(GenPassError::NoCharacterClass) || r == Err::<String, GenPassError>(
            GenPassError::RandomUnavailable,
        ),
        length == 0 && selected_classes(upper, lower, number, symbol).len() == 0 ==> r is Ok,
        r is Ok ==> {
            let p = r->Ok_0@;
            let classes = selected_classes(upper, lower, number, symbol);
            &&& p.len() == length
            &&& is_ascii_chars(p)
            &&& forall|i: int| 0 <= i < classes.len() ==> #[trigger] classes[i].contains(p[i])
            &&& forall|i: int|
                0 <= i < p.len() ==> selected_pool(upper, lower, number, symbol).contains(
                    #[trigger] p[i],
                )
        },
{
    proof {
        lemma_classes_ascii(upper, lower, number, symbol);
    }
    let mut k: usize = 0;
    if upper {
        k = k + 1;
    }
    if lower {
        k = k + 1;
    }
    if number {
        k = k + 1;
    }
    if symbol {
        k = k + 1;
    }
    assert(k == selected_classes(upper, lower, number, symbol).len());
    let n = length as usize;
    if n < k {
        return Err(GenPassError::TooShort);
    }
    if k == 0 && n > 0 {
        return Err(GenPassError::NoCharacterClass);
    }
    if n == 0 {
        return Ok(String::new());
    }
    let mut rng = match seeded_rng() {
        Some(g) => g,
        None => return Err(GenPassError::RandomUnavailable),
    };
    let ghost classes: Seq<Seq<char>> = seq![];
    let mut pool: Vec<char> = Vec::new();
    let mut password = String::new();
    if upper {
        take_class(&mut pool, &mut password, &mut rng, upper_pool(), Ghost(classes));
        proof {
            classes = classes.push(upper_chars());
        }
    }
    if lower {
        take_class(&mut pool, &mut password, &mut rng, lower_pool(), Ghost(classes));
        proof {
            classes = classes.push(lower_chars());
        }
    }
    if number {
        take_class(&mut pool, &mut password, &mut rng, number_pool(), Ghost(classes));
        proof {
            classes = classes.push(number_chars());
        }
    }
    if symbol {
        take_class(&mut pool, &mut password, &mut rng, symbol_pool(), Ghost(classes));
        proof {
            classes = classes.push(symbol_chars());
        }
    }
    assert(classes =~= selected_classes(upper, lower, number, symbol));
    assert(pool@ =~= selected_pool(upper, lower, number, symbol));
    let mut i: usize = k;
    while i < n
        invariant
            k <= i <= n,
            n > 0,
            k == classes.len(),
            password@.len() == i,
            pool@ == selected_pool(upper, lower, number, symbol),
            pool@.len() > 0,
            forall|j: int| 0 <= j < classes.len() ==> #[trigger] classes[j].contains(password@[j]),
            forall|j: int| 0 <= j < i ==> pool@.contains(#[trigger] password@[j]),
            is_ascii_chars(password@),
            forall|c: char|
                #![trigger selected_pool(upper, lower, number, symbol).contains(c)]
                selected_pool(upper, lower, number, symbol).contains(c) ==> c <= '\u{7f}',
        decreases n - i,
    {
        let ghost before = password@;
        let c = choose_char(pool.as_slice(), &mut rng);
        push_char(&mut password, c);
        assert forall|j: int| 0 <= j < i implies password@[j] == before[j] by {}
        i = i + 1;
    }
    Ok(password)
}

} // verus!
