//! The municipalities of the reference data, and the search for the code of
//! one of them.

use crate::lettere::{in_maiuscolo, maiuscolo, uguali_senza_maiuscole};
use crate::testo::caratteri;
use vstd::prelude::*;

verus! {

/// One municipality of the reference data.
#[derive(Debug, Clone, PartialEq, Eq)]
pub struct Comune {
    /// The two letters of its province.
    pub sigla_provincia: String,
    /// Its name.
    pub denominazione_ita: String,
    /// Its code: a letter and three digits.
    pub codice_belfiore: String,
}

/// The code of a municipality as the reference data should hold it: an
/// upper-case letter and three digits.
pub open spec fn codice_belfiore(c: Seq<char>) -> bool {
    &&& c.len() == 4
    &&& 'A' <= c[0] && c[0] <= 'Z'
    &&& forall|i: int| 1 <= i < 4 ==> '0' <= #[trigger] c[i] && c[i] <= '9'
}

/// The municipality `c` is the one called `nome` in the province
/// `provincia`: both texts are the same as its own, but for the case of the
/// ASCII letters.
pub open spec fn corrisponde(c: Comune, nome: Seq<char>, provincia: Seq<char>) -> bool {
    &&& uguali_senza_maiuscole(c.denominazione_ita@, nome)
    &&& uguali_senza_maiuscole(c.sigla_provincia@, provincia)
}

/// The index of the first municipality, from the index `da` on, that is
/// called `nome` in the province `provincia`.
pub open spec fn cerca_da(comuni: Seq<Comune>, nome: Seq<char>, provincia: Seq<char>, da: int)
    -> Option<int>
    decreases comuni.len() - da,
{
    if da < 0 || da >= comuni.len() {
        None
    } else if corrisponde(comuni[da], nome, provincia) {
        Some(da)
    } else {
        cerca_da(comuni, nome, provincia, da + 1)
    }
}

/// The code of the first municipality of `comuni` that is called `nome` in
/// the province `provincia`, if there is one.
pub open spec fn codice_comune(comuni: Seq<Comune>, nome: Seq<char>, provincia: Seq<char>)
    -> Option<Seq<char>> {
    match cerca_da(comuni, nome, provincia, 0) {
        Some(i) => Some(comuni[i].codice_belfiore@),
        None => None,
    }
}

/// What the search finds is the first municipality that corresponds, and it
/// finds nothing only where none corresponds.
pub proof fn lemma_cerca_da(comuni: Seq<Comune>, nome: Seq<char>, provincia: Seq<char>, da: int)
    requires
        0 <= da,
    ensures
        match cerca_da(comuni, nome, provincia, da) {
            Some(i) => {
                &&& da <= i < comuni.len()
                &&& corrisponde(comuni[i], nome, provincia)
                &&& forall|j: int| da <= j < i ==> !corrisponde(#[trigger] comuni[j], nome, provincia)
            },
            None => forall|j: int|
                da <= j < comuni.len() ==> !corrisponde(#[trigger] comuni[j], nome, provincia),
        },
    decreases comuni.len() - da,
{
    if da < comuni.len() && !corrisponde(comuni[da], nome, provincia) {
        lemma_cerca_da(comuni, nome, provincia, da + 1);
    }
}

/// Whether `a` and `b` are the same text, but for the case of the ASCII
/// letters.
fn uguale_senza_maiuscole(a: &str, b: &Vec<char>) -> (r: bool)
    ensures
        r == uguali_senza_maiuscole(a@, b@),
{
    let mut i: usize = 0;
    for c in it: a.chars()
        invariant
            it.seq() == a@,
            i == it.index(),
            i <= b.len(),
            forall|k: int| 0 <= k < i ==> in_maiuscolo(#[trigger] a@[k]) == in_maiuscolo(b@[k]),
    {
        if i >= b.len() {
            return false;
        }
        if maiuscolo(c) != maiuscolo(b[i]) {
            assert(in_maiuscolo(a@[i as int]) != in_maiuscolo(b@[i as int]));
            return false;
        }
        i += 1;
    }
    i == b.len()
}

/// The code of the municipality called `nome` in the province `provincia`:
/// that of the first entry of `comuni` whose name and province are these, the
/// case of the ASCII letters left aside. `None` where no entry is.
pub fn trova_codice_comune(comuni: &[Comune], nome: &str, provincia: &str) -> (codice: Option<
    String,
>)
    ensures
        match codice {
            Some(c) => codice_comune(comuni@, nome@, provincia@) == Some(c@),
            None => codice_comune(comuni@, nome@, provincia@) is None,
        },
        codice is None <==> (forall|i: int|
            0 <= i < comuni@.len() ==> !corrisponde(#[trigger] comuni@[i], nome@, provincia@)),
{
    proof {
        lemma_cerca_da(comuni@, nome@, provincia@, 0);
    }
    let n = caratteri(nome);
    let p = caratteri(provincia);
    let mut i: usize = 0;
    while i < comuni.len()
        invariant
            i <= comuni.len(),
            n@ == nome@,
            p@ == provincia@,
            cerca_da(comuni@, nome@, provincia@, 0) == cerca_da(
                comuni@,
                nome@,
                provincia@,
                i as int,
            ),
        decreases comuni.len() - i,
    {
        let comune = &comuni[i];
        if uguale_senza_maiuscole(comune.denominazione_ita.as_str(), &n) && uguale_senza_maiuscole(
            comune.sigla_provincia.as_str(),
            &p,
        ) {
            return Some(comune.codice_belfiore.clone());
        }
        i += 1;
    }
    None
}

} // verus!
