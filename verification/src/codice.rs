//! The fiscal code as a whole: its four parts in their order, closed by the
//! check character.

use crate::comune::{codice_belfiore, codice_comune, trova_codice_comune, Comune};
use crate::controllo::{
    carattere_di_controllo, genera_codice_controllo, lemma_controllo_lettera, simbolo,
    solo_simboli,
};
use crate::data::{codice_data, genera_codice_data_nascita, lemma_codice_data_cinque_simboli};
use crate::errore::Errore;
use crate::nome::{
    codice_cognome, codice_nome, genera_codice_cognome, genera_codice_nome,
    lemma_codici_tre_lettere,
};
use crate::testo::aggiungi_carattere;
use vstd::prelude::*;
use vstd::string::StringExecFns;

verus! {

/// The sex of a person.
#[derive(Debug, Clone, Copy, PartialEq, Eq, Structural)]
pub enum Sesso {
    Maschio,
    Femmina,
}

impl Sesso {
    /// The letter that names the sex: `M` or `F`.
    pub open spec fn lettera(self) -> char {
        match self {
            Sesso::Maschio => 'M',
            Sesso::Femmina => 'F',
        }
    }

    /// The letter that names the sex: `M` or `F`.
    pub fn carattere(self) -> (c: char)
        ensures
            c == self.lettera(),
    {
        match self {
            Sesso::Maschio => 'M',
            Sesso::Femmina => 'F',
        }
    }

    /// The sex that a letter names: `F` is a woman, every other character a
    /// man.
    pub fn da_carattere(c: char) -> (sesso: Sesso)
        ensures
            sesso == if c == 'F' {
                Sesso::Femmina
            } else {
                Sesso::Maschio
            },
    {
        if c == 'F' {
            Sesso::Femmina
        } else {
            Sesso::Maschio
        }
    }
}

/// What must be known of a person to compute the fiscal code.
#[derive(Debug, Clone, PartialEq, Eq)]
pub struct Persona {
    /// The given name.
    pub nome: String,
    /// The surname.
    pub cognome: String,
    pub sesso: Sesso,
    /// The year of birth, in full.
    pub anno: u32,
    /// The month of birth, from 1 to 12.
    pub mese: u32,
    /// The day of birth, from 1 to 31.
    pub giorno: u32,
    /// The name of the municipality of birth.
    pub comune: String,
    /// The two letters of the province of birth.
    pub provincia: String,
}

/// The fifteen characters before the check character: the codes of the
/// surname, of the given name, of the date of birth with the sex and of the
/// municipality, in this order.
pub open spec fn codice_base(
    cognome: Seq<char>,
    nome: Seq<char>,
    data: Seq<char>,
    comune: Seq<char>,
) -> Seq<char> {
    cognome + nome + data + comune
}

/// A text followed by its check character.
pub open spec fn con_controllo(base: Seq<char>) -> Seq<char> {
    base.push(carattere_di_controllo(base))
}

impl Persona {
    /// The day of birth is a day of some month, and the month a month of the
    /// year.
    pub open spec fn data_plausibile(self) -> bool {
        1 <= self.mese <= 12 && 1 <= self.giorno <= 31
    }

    /// The fifteen characters before the check character, for a person born
    /// in the municipality whose code is `comune`.
    pub open spec fn base(self, comune: Seq<char>) -> Seq<char> {
        codice_base(
            codice_cognome(self.cognome@),
            codice_nome(self.nome@),
            codice_data(
                self.anno as int,
                self.mese as int,
                self.giorno as int,
                self.sesso.lettera(),
            ),
            comune,
        )
    }
}

/// For every surname and given name, every date whose day is one of the
/// calendar and every well-formed code of a municipality, the fiscal code has
/// sixteen characters, each a digit or an upper-case letter, and its check
/// character can be computed.
pub proof fn lemma_sedici_simboli(
    cognome: Seq<char>,
    nome: Seq<char>,
    anno: int,
    mese: int,
    giorno: int,
    sesso: char,
    comune: Seq<char>,
)
    requires
        0 <= anno,
        1 <= giorno <= 31,
        codice_belfiore(comune),
    ensures
        ({
            let base = codice_base(
                codice_cognome(cognome),
                codice_nome(nome),
                codice_data(anno, mese, giorno, sesso),
                comune,
            );
            &&& base.len() == 15
            &&& solo_simboli(base)
            &&& con_controllo(base).len() == 16
            &&& solo_simboli(con_controllo(base))
        }),
{
    let c = codice_cognome(cognome);
    let n = codice_nome(nome);
    let d = codice_data(anno, mese, giorno, sesso);
    let base = codice_base(c, n, d, comune);
    lemma_codici_tre_lettere(cognome);
    lemma_codici_tre_lettere(nome);
    lemma_codice_data_cinque_simboli(anno, mese, giorno, sesso);
    lemma_controllo_lettera(base);
    assert forall|i: int| 0 <= i < base.len() implies simbolo(#[trigger] base[i]) by {
        if i < 3 {
            assert(base[i] == c[i]);
        } else if i < 6 {
            assert(base[i] == n[i - 3]);
        } else if i < 11 {
            assert(base[i] == d[i - 6]);
        } else {
            assert(base[i] == comune[i - 11]);
        }
    }
    let tutto = con_controllo(base);
    assert forall|i: int| 0 <= i < tutto.len() implies simbolo(#[trigger] tutto[i]) by {
        if i < 15 {
            assert(tutto[i] == base[i]);
        }
    }
}

/// Puts the parts of a fiscal code one after the other: the codes of the
/// surname, of the given name, of the date of birth and of the municipality,
/// in this order, and the check character last.
pub fn calcola_codice_fiscale(
    cognome: &str,
    nome: &str,
    codice_data_nascita: &str,
    codice_comune: &str,
    codice_controllo: char,
) -> (codice: String)
    ensures
        codice@ == codice_base(cognome@, nome@, codice_data_nascita@, codice_comune@).push(
            codice_controllo,
        ),
{
    let mut codice = String::new();
    codice.append(cognome);
    codice.append(nome);
    codice.append(codice_data_nascita);
    codice.append(codice_comune);
    aggiungi_carattere(&mut codice, codice_controllo);
    assert(codice@ =~= codice_base(cognome@, nome@, codice_data_nascita@, codice_comune@).push(
        codice_controllo,
    ));
    codice
}

/// The fiscal code made of the four parts given: they are put one after the
/// other in their order, the check character of that text is computed, and it
/// closes the code. Where a part holds a character that is neither a digit
/// nor an upper-case letter there is no check character, and no code.
pub fn componi_codice_fiscale(
    cognome: &str,
    nome: &str,
    codice_data_nascita: &str,
    codice_comune: &str,
) -> (r: Result<String, Errore>)
    ensures
        r is Ok <==> solo_simboli(
            codice_base(cognome@, nome@, codice_data_nascita@, codice_comune@),
        ),
        r matches Ok(codice) ==> codice@ == con_controllo(
            codice_base(cognome@, nome@, codice_data_nascita@, codice_comune@),
        ),
        r matches Err(e) ==> e is CarattereNonValido,
{
    let mut base = String::new();
    base.append(cognome);
    base.append(nome);
    base.append(codice_data_nascita);
    base.append(codice_comune);
    assert(base@ =~= codice_base(cognome@, nome@, codice_data_nascita@, codice_comune@));
    match genera_codice_controllo(base.as_str()) {
        Ok(controllo) => Ok(
            calcola_codice_fiscale(cognome, nome, codice_data_nascita, codice_comune, controllo),
        ),
        Err(e) => Err(e),
    }
}

/// The fiscal code of a person, from the plain fields.
pub(crate) fn codice_dai_campi(
    cognome: &str,
    nome: &str,
    sesso: char,
    anno: u32,
    mese: u32,
    giorno: u32,
    comune: &str,
    provincia: &str,
    comuni: &[Comune],
) -> (r: Result<String, Errore>)
    ensures
        match r {
            Ok(codice) => {
                &&& codice_comune(comuni@, comune@, provincia@) matches Some(cc)
                &&& solo_simboli(
                    codice_base(
                        codice_cognome(cognome@),
                        codice_nome(nome@),
                        codice_data(anno as int, mese as int, giorno as int, sesso),
                        cc,
                    ),
                )
                &&& codice@ == con_controllo(
                    codice_base(
                        codice_cognome(cognome@),
                        codice_nome(nome@),
                        codice_data(anno as int, mese as int, giorno as int, sesso),
                        cc,
                    ),
                )
            },
            Err(Errore::ComuneNonTrovato { comune: c, provincia: p }) => {
                &&& codice_comune(comuni@, comune@, provincia@) is None
                &&& c@ == comune@
                &&& p@ == provincia@
            },
            Err(Errore::CarattereNonValido) => {
                &&& codice_comune(comuni@, comune@, provincia@) matches Some(cc)
                &&& !solo_simboli(
                    codice_base(
                        codice_cognome(cognome@),
                        codice_nome(nome@),
                        codice_data(anno as int, mese as int, giorno as int, sesso),
                        cc,
                    ),
                )
            },
            Err(Errore::DataNonValida) => false,
        },
{
    let codice_nome = genera_codice_nome(nome);
    let codice_cognome = genera_codice_cognome(cognome);
    let codice_del_comune = match trova_codice_comune(comuni, comune, provincia) {
        Some(codice) => codice,
        None => {
            return Err(
                Errore::ComuneNonTrovato {
                    comune: String::from_str(comune),
                    provincia: String::from_str(provincia),
                },
            );
        },
    };
    let codice_data = genera_codice_data_nascita(anno, mese, giorno, sesso);
    componi_codice_fiscale(
        codice_cognome.as_str(),
        codice_nome.as_str(),
        codice_data.as_str(),
        codice_del_comune.as_str(),
    )
}

/// The fiscal code of `persona`, born in a municipality of `comuni`.
///
/// The municipality is looked up by its name and province. Where it is not
/// among `comuni` there is no code: the failure names the place that was
/// looked for. Where its code holds a character that cannot stand in a fiscal
/// code, the check character cannot be computed and there is no code either.
/// Otherwise the code is the four parts in their order, closed by the check
/// character; for a day of the calendar and a well-formed code of the
/// municipality it has sixteen characters, all digits or upper-case letters.
pub fn genera_codice_fiscale(persona: &Persona, comuni: &[Comune]) -> (r: Result<String, Errore>)
    ensures
        match r {
            Ok(codice) => {
                &&& codice_comune(comuni@, persona.comune@, persona.provincia@) matches Some(cc)
                &&& solo_simboli(persona.base(cc))
                &&& codice@ == con_controllo(persona.base(cc))
            },
            Err(Errore::ComuneNonTrovato { comune, provincia }) => {
                &&& codice_comune(comuni@, persona.comune@, persona.provincia@) is None
                &&& comune@ == persona.comune@
                &&& provincia@ == persona.provincia@
            },
            Err(Errore::CarattereNonValido) => {
                &&& codice_comune(comuni@, persona.comune@, persona.provincia@) matches Some(cc)
                &&& !solo_simboli(persona.base(cc))
            },
            Err(Errore::DataNonValida) => false,
        },
        persona.data_plausibile() && (codice_comune(
            comuni@,
            persona.comune@,
            persona.provincia@,
        ) matches Some(cc) && codice_belfiore(cc)) ==> (r matches Ok(codice) && codice@.len() == 16
            && solo_simboli(codice@)),
{
    proof {
        if persona.data_plausibile() {
            if let Some(cc) = codice_comune(comuni@, persona.comune@, persona.provincia@) {
                if codice_belfiore(cc) {
                    lemma_sedici_simboli(
                        persona.cognome@,
                        persona.nome@,
                        persona.anno as int,
                        persona.mese as int,
                        persona.giorno as int,
                        persona.sesso.lettera(),
                        cc,
                    );
                }
            }
        }
    }
    codice_dai_campi(
        persona.cognome.as_str(),
        persona.nome.as_str(),
        persona.sesso.carattere(),
        persona.anno,
        persona.mese,
        persona.giorno,
        persona.comune.as_str(),
        persona.provincia.as_str(),
        comuni,
    )
}

} // verus!
