//! The letters of a name: which of its characters count, and which of them
//! are vowels and which consonants.

use crate::testo::stringa;
use vstd::prelude::*;

verus! {

/// An ASCII lower-case letter.
pub open spec fn lettera_minuscola(c: char) -> bool {
    'a' <= c && c <= 'z'
}

/// An ASCII upper-case letter.
pub open spec fn lettera_maiuscola(c: char) -> bool {
    'A' <= c && c <= 'Z'
}

/// The upper-case form of an ASCII letter; any other character is left alone.
pub open spec fn in_maiuscolo(c: char) -> char {
    if lettera_minuscola(c) {
        ((c as int) - 32) as char
    } else {
        c
    }
}

/// A letter of the ASCII alphabet, in either case. Accented letters and all
/// other characters are not letters here.
pub open spec fn lettera(c: char) -> bool {
    lettera_maiuscola(in_maiuscolo(c))
}

/// One of the five vowels, in either case.
pub open spec fn vocale(c: char) -> bool {
    let m = in_maiuscolo(c);
    m == 'A' || m == 'E' || m == 'I' || m == 'O' || m == 'U'
}

/// A letter that is not a vowel.
pub open spec fn consonante(c: char) -> bool {
    lettera(c) && !vocale(c)
}

/// The consonants of `s`, in the order in which they occur, in upper case.
pub open spec fn consonanti(s: Seq<char>) -> Seq<char> {
    s.filter(|c: char| consonante(c)).map_values(|c: char| in_maiuscolo(c))
}

/// The vowels of `s`, in the order in which they occur, in upper case.
pub open spec fn vocali(s: Seq<char>) -> Seq<char> {
    s.filter(|c: char| vocale(c)).map_values(|c: char| in_maiuscolo(c))
}

/// The letters of `s`, in the order in which they occur, in upper case.
pub open spec fn lettere_maiuscole(s: Seq<char>) -> Seq<char> {
    s.filter(|c: char| lettera(c)).map_values(|c: char| in_maiuscolo(c))
}

/// Two texts that differ at most in the case of their ASCII letters.
pub open spec fn uguali_senza_maiuscole(a: Seq<char>, b: Seq<char>) -> bool {
    &&& a.len() == b.len()
    &&& forall|i: int| 0 <= i < a.len() ==> in_maiuscolo(#[trigger] a[i]) == in_maiuscolo(b[i])
}

/// Appending one character appends its upper-case form to the consonants if
/// it is a consonant, to the vowels if it is a vowel, and to neither otherwise.
pub proof fn lemma_un_carattere_in_piu(s: Seq<char>, c: char)
    ensures
        consonanti(s.push(c)) == if consonante(c) {
            consonanti(s).push(in_maiuscolo(c))
        } else {
            consonanti(s)
        },
        vocali(s.push(c)) == if vocale(c) {
            vocali(s).push(in_maiuscolo(c))
        } else {
            vocali(s)
        },
{
    let pc = |c: char| consonante(c);
    let pv = |c: char| vocale(c);
    let f = |c: char| in_maiuscolo(c);
    s.lemma_filter_push(c, pc);
    s.lemma_filter_push(c, pv);
    if consonante(c) {
        s.filter(pc).lemma_push_map_commute(f, c);
    }
    if vocale(c) {
        s.filter(pv).lemma_push_map_commute(f, c);
    }
}

/// Consonants and vowels of a text are those of its letters in upper case:
/// what is not a letter, and the case of what is, play no part.
pub proof fn lemma_lettere_sole(s: Seq<char>)
    ensures
        consonanti(s) == lettere_maiuscole(s).filter(|c: char| consonante(c)),
        vocali(s) == lettere_maiuscole(s).filter(|c: char| vocale(c)),
    decreases s.len(),
{
    let pl = |c: char| lettera(c);
    let pc = |c: char| consonante(c);
    let pv = |c: char| vocale(c);
    let f = |c: char| in_maiuscolo(c);
    if s.len() == 0 {
        reveal(Seq::filter);
        assert(consonanti(s) =~= lettere_maiuscole(s).filter(pc));
        assert(vocali(s) =~= lettere_maiuscole(s).filter(pv));
    } else {
        let t = s.drop_last();
        let c = s.last();
        let m = in_maiuscolo(c);
        lemma_lettere_sole(t);
        lemma_un_carattere_in_piu(t, c);
        assert(t.push(c) =~= s);
        t.lemma_filter_push(c, pl);
        if lettera(c) {
            t.filter(pl).lemma_push_map_commute(f, c);
            assert(lettere_maiuscole(s) == lettere_maiuscole(t).push(m));
            lettere_maiuscole(t).lemma_filter_push(m, pc);
            lettere_maiuscole(t).lemma_filter_push(m, pv);
            assert(consonante(m) == consonante(c));
            assert(vocale(m) == vocale(c));
        } else {
            assert(lettere_maiuscole(s) == lettere_maiuscole(t));
        }
    }
}

/// Consonants and vowels are upper-case letters.
pub proof fn lemma_lettere_maiuscole(s: Seq<char>)
    ensures
        forall|i: int|
            0 <= i < consonanti(s).len() ==> lettera_maiuscola(#[trigger] consonanti(s)[i]),
        forall|i: int| 0 <= i < vocali(s).len() ==> lettera_maiuscola(#[trigger] vocali(s)[i]),
    decreases s.len(),
{
    if s.len() > 0 {
        let t = s.drop_last();
        lemma_lettere_maiuscole(t);
        lemma_un_carattere_in_piu(t, s.last());
        assert(t.push(s.last()) =~= s);
    } else {
        reveal(Seq::filter);
    }
}

/// The case of the letters of a text does not change its consonants and
/// vowels.
pub proof fn lemma_lettere_senza_maiuscole(a: Seq<char>, b: Seq<char>)
    requires
        uguali_senza_maiuscole(a, b),
    ensures
        consonanti(a) == consonanti(b),
        vocali(a) == vocali(b),
    decreases a.len(),
{
    if a.len() > 0 {
        let a0 = a.drop_last();
        let b0 = b.drop_last();
        assert(in_maiuscolo(a[a.len() - 1]) == in_maiuscolo(b[a.len() - 1]));
        assert forall|i: int| 0 <= i < a0.len() implies in_maiuscolo(#[trigger] a0[i])
            == in_maiuscolo(b0[i]) by {
            assert(a0[i] == a[i]);
        }
        lemma_lettere_senza_maiuscole(a0, b0);
        lemma_un_carattere_in_piu(a0, a.last());
        lemma_un_carattere_in_piu(b0, b.last());
        assert(a0.push(a.last()) =~= a);
        assert(b0.push(b.last()) =~= b);
    } else {
        assert(a =~= b);
    }
}

/// A character that is not a letter, put anywhere into a text, does not
/// change its consonants and vowels.
pub proof fn lemma_lettere_senza_altri_caratteri(s: Seq<char>, i: int, c: char)
    requires
        0 <= i <= s.len(),
        !lettera(c),
    ensures
        consonanti(s.insert(i, c)) == consonanti(s),
        vocali(s.insert(i, c)) == vocali(s),
    decreases s.len() - i,
{
    if i == s.len() {
        assert(s.insert(i, c) =~= s.push(c));
        lemma_un_carattere_in_piu(s, c);
    } else {
        let t = s.drop_last();
        lemma_lettere_senza_altri_caratteri(t, i, c);
        assert(s.insert(i, c) =~= t.insert(i, c).push(s.last()));
        assert(t.push(s.last()) =~= s);
        lemma_un_carattere_in_piu(t.insert(i, c), s.last());
        lemma_un_carattere_in_piu(t, s.last());
    }
}

/// Whether `c` is an ASCII letter.
pub fn e_lettera(c: char) -> (r: bool)
    ensures
        r == lettera(c),
{
    ('a' <= c && c <= 'z') || ('A' <= c && c <= 'Z')
}

/// Whether `c` is one of the five vowels, in either case.
pub fn e_vocale(c: char) -> (r: bool)
    ensures
        r == vocale(c),
{
    c == 'A' || c == 'E' || c == 'I' || c == 'O' || c == 'U' || c == 'a' || c == 'e' || c == 'i'
        || c == 'o' || c == 'u'
}

/// The upper-case form of an ASCII letter; any other character comes back
/// as it is.
pub fn maiuscolo(c: char) -> (m: char)
    ensures
        m == in_maiuscolo(c),
{
    if 'a' <= c && c <= 'z' {
        let b: u8 = c as u8;
        (b - 32) as char
    } else {
        c
    }
}

/// Consonants and vowels of `s`, each in its order and in upper case.
pub(crate) fn consonanti_e_vocali(s: &str) -> (r: (Vec<char>, Vec<char>))
    ensures
        r.0@ == consonanti(s@),
        r.1@ == vocali(s@),
{
    let mut cons: Vec<char> = Vec::new();
    let mut voc: Vec<char> = Vec::new();
    proof {
        reveal(Seq::filter);
        assert(s@.take(0) =~= Seq::<char>::empty());
        assert(consonanti(s@.take(0)) =~= Seq::<char>::empty());
        assert(vocali(s@.take(0)) =~= Seq::<char>::empty());
    }
    for c in it: s.chars()
        invariant
            it.seq() == s@,
            cons@ == consonanti(s@.take(it.index())),
            voc@ == vocali(s@.take(it.index())),
    {
        proof {
            lemma_un_carattere_in_piu(s@.take(it.index()), c);
            assert(s@.take(it.index()).push(c) =~= s@.take(it.index() + 1));
        }
        if e_lettera(c) {
            if e_vocale(c) {
                voc.push(maiuscolo(c));
            } else {
                cons.push(maiuscolo(c));
            }
        }
    }
    proof {
        assert(s@.take(s@.len() as int) =~= s@);
    }
    (cons, voc)
}

/// Splits the letters of `s` into its consonants and its vowels, each in the
/// order in which they occur and in upper case. Every character that is not
/// an ASCII letter is dropped.
pub fn estrai_consonanti_vocali(s: &str) -> (r: (String, String))
    ensures
        r.0@ == consonanti(s@),
        r.1@ == vocali(s@),
{
    let (cons, voc) = consonanti_e_vocali(s);
    (stringa(&cons), stringa(&voc))
}

} // verus!
