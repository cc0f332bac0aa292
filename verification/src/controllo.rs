//! The check character that closes a fiscal code.

use crate::errore::Errore;
use vstd::prelude::*;

verus! {

/// Value of each symbol of the alphabet `0-9A-Z`, in that order, where the
/// symbol stands at an even place of the code, the places counted from one.
pub const VALORI_PARI: [u8; 36] = [
    0, 1, 2, 3, 4, 5, 6, 7, 8, 9,
    0, 1, 2, 3, 4, 5, 6, 7, 8, 9,
    10, 11, 12, 13, 14, 15, 16, 17, 18, 19,
    20, 21, 22, 23, 24, 25,
];

/// Value of each symbol of the alphabet `0-9A-Z`, in that order, where the
/// symbol stands at an odd place of the code, the places counted from one.
pub const VALORI_DISPARI: [u8; 36] = [
    1, 0, 5, 7, 9, 13, 15, 17, 19, 21,
    1, 0, 5, 7, 9, 13, 15, 17, 19, 21,
    2, 4, 18, 20, 11, 3, 6, 8, 12, 14,
    16, 10, 22, 25, 24, 23,
];

/// A symbol of the alphabet of the code: a digit or an upper-case letter.
pub open spec fn simbolo(c: char) -> bool {
    ('0' <= c && c <= '9') || ('A' <= c && c <= 'Z')
}

/// Every character of `s` is a symbol of the alphabet.
pub open spec fn solo_simboli(s: Seq<char>) -> bool {
    forall|i: int| 0 <= i < s.len() ==> simbolo(#[trigger] s[i])
}

/// The place of a symbol in the alphabet `0-9A-Z`, counted from zero.
pub open spec fn posto(c: char) -> int {
    if '0' <= c && c <= '9' {
        c as int - '0' as int
    } else {
        c as int - 'A' as int + 10
    }
}

/// What the symbol `c` adds to the sum when it is the character of index `i`
/// of the code, the indices counted from zero: its value for odd places
/// where `i` is even, its value for even places where `i` is odd.
pub open spec fn valore(i: int, c: char) -> int {
    if i % 2 == 0 {
        VALORI_DISPARI@[posto(c)] as int
    } else {
        VALORI_PARI@[posto(c)] as int
    }
}

/// The sum of the values of all the characters of `s`.
pub open spec fn somma_valori(s: Seq<char>) -> int
    decreases s.len(),
{
    if s.len() == 0 {
        0
    } else {
        somma_valori(s.drop_last()) + valore(s.len() - 1, s.last())
    }
}

/// The check character of `s`: the letter whose place in the alphabet `A-Z`
/// is the remainder of the sum of the values by 26.
pub open spec fn carattere_di_controllo(s: Seq<char>) -> char {
    ('A' as int + somma_valori(s) % 26) as char
}

/// Each symbol has a value from 0 to 25 at every place.
pub proof fn lemma_valore_limitato(i: int, c: char)
    requires
        simbolo(c),
    ensures
        0 <= valore(i, c) <= 25,
{
    let p = posto(c);
    assert(0 <= p < 36);
    assert(VALORI_PARI@[p] <= 25 && VALORI_DISPARI@[p] <= 25);
}

/// Putting the character `c` in the place of the one of index `i` moves the
/// sum by the difference of the two values, and by nothing else.
pub proof fn lemma_sostituzione(s: Seq<char>, i: int, c: char)
    requires
        0 <= i < s.len(),
    ensures
        somma_valori(s.update(i, c)) == somma_valori(s) - valore(i, s[i]) + valore(i, c),
        solo_simboli(s) ==> (solo_simboli(s.update(i, c)) <==> simbolo(c)),
    decreases s.len(),
{
    let t = s.update(i, c);
    if i == s.len() - 1 {
        assert(t.drop_last() =~= s.drop_last());
    } else {
        lemma_sostituzione(s.drop_last(), i, c);
        assert(t.drop_last() =~= s.drop_last().update(i, c));
    }
    if solo_simboli(s) {
        assert(t[i] == c);
        if simbolo(c) {
            assert forall|j: int| 0 <= j < t.len() implies simbolo(#[trigger] t[j]) by {
                if j != i {
                    assert(t[j] == s[j]);
                }
            }
        }
    }
}

/// A digit and the letter that has its place among the first ten letters of
/// the alphabet (`0` and `A`, `1` and `B`, up to `9` and `J`) have the same
/// value at every place. So a code in which one takes the place of the other
/// keeps its check character: two codes that differ in one character need not
/// differ in their check characters.
pub proof fn lemma_cifra_o_lettera(s: Seq<char>, i: int)
    requires
        0 <= i < s.len(),
        '0' <= s[i] && s[i] <= '9',
    ensures
        simbolo(((s[i] as int) + 17) as char),
        s.update(i, ((s[i] as int) + 17) as char) != s,
        carattere_di_controllo(s.update(i, ((s[i] as int) + 17) as char))
            == carattere_di_controllo(s),
{
    let c = ((s[i] as int) + 17) as char;
    let p = posto(s[i]);
    assert(0 <= p <= 9);
    assert(posto(c) == p + 10);
    assert(VALORI_PARI@[p] == VALORI_PARI@[p + 10]);
    assert(VALORI_DISPARI@[p] == VALORI_DISPARI@[p + 10]);
    lemma_sostituzione(s, i, c);
    assert(s.update(i, c)[i] != s[i]);
}

/// The check character is an upper-case letter.
pub proof fn lemma_controllo_lettera(s: Seq<char>)
    ensures
        'A' <= carattere_di_controllo(s) && carattere_di_controllo(s) <= 'Z',
{
    let r = somma_valori(s) % 26;
    assert(0 <= r < 26);
}

/// The place of `c` in the alphabet `0-9A-Z`, if it is one of its symbols.
fn posto_del_simbolo(c: char) -> (r: Option<usize>)
    ensures
        r is Some <==> simbolo(c),
        r matches Some(p) ==> p == posto(c) && p < 36,
{
    if '0' <= c && c <= '9' {
        Some((c as u8 - 48) as usize)
    } else if 'A' <= c && c <= 'Z' {
        Some((c as u8 - 55) as usize)
    } else {
        None
    }
}

/// The check character of `codice`.
///
/// Each character is looked up in one of the two tables of values, by the
/// parity of its place; the values are added up, and the remainder of the sum
/// by 26 names a letter, `A` for 0 up to `Z` for 25. A character that is not
/// a digit or an upper-case letter has no value: the text is then refused.
pub fn genera_codice_controllo(codice: &str) -> (r: Result<char, Errore>)
    ensures
        r is Ok <==> solo_simboli(codice@),
        r matches Ok(c) ==> c == carattere_di_controllo(codice@),
        r matches Err(e) ==> e is CarattereNonValido,
{
    let mut resto: u8 = 0;
    let mut posto_dispari = true;
    for c in it: codice.chars()
        invariant
            it.seq() == codice@,
            solo_simboli(codice@.take(it.index())),
            resto as int == somma_valori(codice@.take(it.index())) % 26,
            posto_dispari == (it.index() % 2 == 0),
    {
        let ghost prima = codice@.take(it.index());
        let ghost dopo = codice@.take(it.index() + 1);
        proof {
            assert(dopo.drop_last() =~= prima);
            assert(dopo.last() == c);
        }
        match posto_del_simbolo(c) {
            Some(p) => {
                let v = if posto_dispari {
                    VALORI_DISPARI[p]
                } else {
                    VALORI_PARI[p]
                };
                proof {
                    lemma_valore_limitato(it.index(), c);
                    assert(v as int == valore(it.index(), c));
                    assert forall|j: int| 0 <= j < dopo.len() implies simbolo(
                        #[trigger] dopo[j],
                    ) by {
                        if j < prima.len() {
                            assert(dopo[j] == prima[j]);
                        }
                    }
                }
                resto = (resto + v) % 26;
                posto_dispari = !posto_dispari;
            },
            None => {
                assert(!simbolo(codice@[it.index()]));
                return Err(Errore::CarattereNonValido);
            },
        }
    }
    proof {
        assert(codice@.take(codice@.len() as int) =~= codice@);
    }
    Ok((65u8 + resto) as char)
}

} // verus!
