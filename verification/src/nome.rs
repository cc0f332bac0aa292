//! The three characters that stand for the surname and for the given name.

use crate::lettere::{
    consonanti, consonanti_e_vocali, lemma_lettere_maiuscole, lemma_lettere_senza_altri_caratteri,
    lemma_lettere_senza_maiuscole, lemma_lettere_sole, lettera, lettera_maiuscola,
    lettere_maiuscole, uguali_senza_maiuscole, vocali,
};
use crate::testo::aggiungi_carattere;
use vstd::prelude::*;

verus! {

/// The first three characters of `s`; where `s` has fewer, `X` fills the
/// places that are left.
pub open spec fn tre_caratteri(s: Seq<char>) -> Seq<char> {
    Seq::new(
        3,
        |i: int|
            if i < s.len() {
                s[i]
            } else {
                'X'
            },
    )
}

/// The code of a given name. With four consonants or more it is the first,
/// the third and the fourth of them; otherwise the consonants followed by the
/// vowels, cut or filled to three characters.
pub open spec fn codice_nome(nome: Seq<char>) -> Seq<char> {
    let c = consonanti(nome);
    if c.len() >= 4 {
        seq![c[0], c[2], c[3]]
    } else {
        tre_caratteri(c + vocali(nome))
    }
}

/// The code of a surname: its consonants followed by its vowels, cut or
/// filled to three characters.
pub open spec fn codice_cognome(cognome: Seq<char>) -> Seq<char> {
    tre_caratteri(consonanti(cognome) + vocali(cognome))
}

/// Three upper-case letters.
pub open spec fn tre_lettere(s: Seq<char>) -> bool {
    &&& s.len() == 3
    &&& forall|i: int| 0 <= i < 3 ==> lettera_maiuscola(#[trigger] s[i])
}

/// A surname with three consonants or more is coded by the first three of
/// them: no consonant is skipped, as one is in a given name.
pub proof fn lemma_cognome_tre_consonanti(cognome: Seq<char>)
    requires
        consonanti(cognome).len() >= 3,
    ensures
        codice_cognome(cognome) == consonanti(cognome).take(3),
{
    assert(codice_cognome(cognome) =~= consonanti(cognome).take(3));
}

/// Both codes are three upper-case letters, whatever the text.
pub proof fn lemma_codici_tre_lettere(s: Seq<char>)
    ensures
        tre_lettere(codice_nome(s)),
        tre_lettere(codice_cognome(s)),
{
    lemma_lettere_maiuscole(s);
    let c = consonanti(s);
    let v = vocali(s);
    let t = c + v;
    assert forall|i: int| 0 <= i < t.len() implies lettera_maiuscola(#[trigger] t[i]) by {
        if i < c.len() {
            assert(t[i] == c[i]);
        } else {
            assert(t[i] == v[i - c.len()]);
        }
    }
    assert forall|i: int| 0 <= i < 3 implies lettera_maiuscola(#[trigger] tre_caratteri(t)[i]) by {
        if i < t.len() {
            assert(tre_caratteri(t)[i] == t[i]);
        }
    }
}

/// Both codes depend on the letters of the text alone, taken in upper case:
/// two texts with the same letters in the same order have the same codes,
/// whatever else stands between the letters and whatever their case.
pub proof fn lemma_codici_dalle_sole_lettere(a: Seq<char>, b: Seq<char>)
    requires
        lettere_maiuscole(a) == lettere_maiuscole(b),
    ensures
        codice_nome(a) == codice_nome(b),
        codice_cognome(a) == codice_cognome(b),
{
    lemma_lettere_sole(a);
    lemma_lettere_sole(b);
}

/// Both codes are the same for two texts that differ only in the case of
/// their letters.
pub proof fn lemma_codici_senza_maiuscole(a: Seq<char>, b: Seq<char>)
    requires
        uguali_senza_maiuscole(a, b),
    ensures
        codice_nome(a) == codice_nome(b),
        codice_cognome(a) == codice_cognome(b),
{
    lemma_lettere_senza_maiuscole(a, b);
}

/// Both codes stay the same when a character that is not a letter (a space,
/// an apostrophe, a digit, an accented letter) is put anywhere into the text.
pub proof fn lemma_codici_senza_altri_caratteri(s: Seq<char>, i: int, c: char)
    requires
        0 <= i <= s.len(),
        !lettera(c),
    ensures
        codice_nome(s.insert(i, c)) == codice_nome(s),
        codice_cognome(s.insert(i, c)) == codice_cognome(s),
{
    lemma_lettere_senza_altri_caratteri(s, i, c);
}

/// Consonants followed by vowels, cut or filled with `X` to three characters.
fn consonanti_poi_vocali(cons: &Vec<char>, voc: &Vec<char>) -> (codice: String)
    ensures
        codice@ == tre_caratteri(cons@ + voc@),
{
    let mut codice = String::new();
    let mut i: usize = 0;
    while i < 3
        invariant
            i <= 3,
            codice@ == tre_caratteri(cons@ + voc@).take(i as int),
        decreases 3 - i,
    {
        let c = if i < cons.len() {
            cons[i]
        } else if i - cons.len() < voc.len() {
            voc[i - cons.len()]
        } else {
            'X'
        };
        aggiungi_carattere(&mut codice, c);
        i += 1;
        assert(codice@ =~= tre_caratteri(cons@ + voc@).take(i as int));
    }
    assert(codice@ =~= tre_caratteri(cons@ + voc@));
    codice
}

/// The three-letter code of the given name `nome`.
pub fn genera_codice_nome(nome: &str) -> (codice: String)
    ensures
        codice@ == codice_nome(nome@),
        tre_lettere(codice@),
{
    proof {
        lemma_codici_tre_lettere(nome@);
    }
    let (cons, voc) = consonanti_e_vocali(nome);
    if cons.len() >= 4 {
        let mut codice = String::new();
        aggiungi_carattere(&mut codice, cons[0]);
        aggiungi_carattere(&mut codice, cons[2]);
        aggiungi_carattere(&mut codice, cons[3]);
        assert(codice@ =~= seq![cons@[0], cons@[2], cons@[3]]);
        codice
    } else {
        consonanti_poi_vocali(&cons, &voc)
    }
}

/// The three-letter code of the surname `cognome`.
pub fn genera_codice_cognome(cognome: &str) -> (codice: String)
    ensures
        codice@ == codice_cognome(cognome@),
        consonanti(cognome@).len() >= 3 ==> codice@ == consonanti(cognome@).take(3),
        tre_lettere(codice@),
{
    proof {
        lemma_codici_tre_lettere(cognome@);
        if consonanti(cognome@).len() >= 3 {
            lemma_cognome_tre_consonanti(cognome@);
        }
    }
    let (cons, voc) = consonanti_e_vocali(cognome);
    consonanti_poi_vocali(&cons, &voc)
}

} // verus!
