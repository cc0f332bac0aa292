//! The form in which the data of a person are typed, and what its buttons
//! do to it.

use crate::calendario::{data_letta, valida_data};
use crate::codice::{codice_base, codice_dai_campi, con_controllo};
use crate::comune::{codice_comune, trova_codice_comune, Comune};
use crate::controllo::solo_simboli;
use crate::data::codice_data;
use crate::errore::Errore;
use crate::nome::{codice_cognome, codice_nome};
use vstd::prelude::*;
use vstd::string::StringExecFns;
use vstd::utf8::encode_utf8;

verus! {

/// The number of bytes that a text takes when it is written in UTF-8.
pub open spec fn byte_del_testo(s: Seq<char>) -> usize {
    encode_utf8(s).len() as usize
}

/// The fields of the form, as the user has filled them in.
#[derive(Debug, Clone, PartialEq, Eq)]
pub struct CodiceFiscaleApp {
    /// The given name.
    pub nome: String,
    /// The surname.
    pub cognome: String,
    /// The sex: `M` or `F`.
    pub sesso: char,
    /// The date of birth, written as `dd/mm/yyyy`.
    pub data_nascita: String,
    /// The name of the municipality of birth.
    pub comune: String,
    /// The two letters of the province of birth.
    pub provincia: String,
    /// The fiscal code, once it has been computed.
    pub codice_fiscale: String,
    /// Whether the button is to check the code that is shown, in place of
    /// computing one.
    pub verifica: bool,
}

impl Default for CodiceFiscaleApp {
    /// The empty form: no text in any field, the sex set to `M`, and the
    /// button set to compute.
    fn default() -> (modulo: Self)
        ensures
            modulo.vuoto(),
            !modulo.verifica,
    {
        CodiceFiscaleApp {
            nome: String::new(),
            cognome: String::new(),
            sesso: 'M',
            data_nascita: String::new(),
            comune: String::new(),
            provincia: String::new(),
            codice_fiscale: String::new(),
            verifica: false,
        }
    }
}

impl CodiceFiscaleApp {
    /// No field holds any text, and the sex is `M`.
    pub open spec fn vuoto(self) -> bool {
        &&& self.nome@ == Seq::<char>::empty()
        &&& self.cognome@ == Seq::<char>::empty()
        &&& self.sesso == 'M'
        &&& self.data_nascita@ == Seq::<char>::empty()
        &&& self.comune@ == Seq::<char>::empty()
        &&& self.provincia@ == Seq::<char>::empty()
        &&& self.codice_fiscale@ == Seq::<char>::empty()
    }

    /// The same form with another text in the field of the fiscal code.
    pub open spec fn con_codice(self, codice: String) -> CodiceFiscaleApp {
        CodiceFiscaleApp { codice_fiscale: codice, ..self }
    }

    /// The fifteen characters before the check character, for the names and
    /// the sex of the form, the date given and the municipality whose code is
    /// `comune`.
    pub open spec fn base(self, data: (u32, u32, u32), comune: Seq<char>) -> Seq<char> {
        codice_base(
            codice_cognome(self.cognome@),
            codice_nome(self.nome@),
            codice_data(data.2 as int, data.1 as int, data.0 as int, self.sesso),
            comune,
        )
    }

    /// Empties every field and sets the sex back to `M`. Whether the button
    /// checks or computes stays as it is.
    pub fn pulisci(&mut self)
        ensures
            final(self).vuoto(),
            final(self).verifica == old(self).verifica,
    {
        self.nome = String::new();
        self.cognome = String::new();
        self.sesso = 'M';
        self.data_nascita = String::new();
        self.comune = String::new();
        self.provincia = String::new();
        self.codice_fiscale = String::new();
    }

    /// Checks the text in the field of the fiscal code and writes the answer
    /// in its place: the code passes where it takes sixteen bytes.
    pub fn verifica_codice(&mut self)
        ensures
            final(self).codice_fiscale@ == if byte_del_testo(old(self).codice_fiscale@) == 16 {
                "Codice fiscale valido"@
            } else {
                "Codice fiscale non valido"@
            },
            *final(self) == old(self).con_codice(final(self).codice_fiscale),
    {
        let risposta = if self.codice_fiscale.as_str().len() == 16 {
            "Codice fiscale valido"
        } else {
            "Codice fiscale non valido"
        };
        self.codice_fiscale = String::from_str(risposta);
    }

    /// Computes the fiscal code of the person of the form, born in a
    /// municipality of `comuni`, and writes it into its field.
    ///
    /// Where the municipality is not among `comuni`, where the date is not a
    /// date written as `dd/mm/yyyy`, or where the code of the municipality
    /// holds a character that cannot stand in a fiscal code, the form stays as
    /// it is and the failure says which of these it was, the first of them
    /// that holds.
    pub fn genera(&mut self, comuni: &[Comune]) -> (r: Result<(), Errore>)
        ensures
            match r {
                Ok(_) => {
                    &&& codice_comune(comuni@, old(self).comune@, old(self).provincia@) matches Some(
                        cc,
                    )
                    &&& data_letta(old(self).data_nascita@) matches Some(data)
                    &&& solo_simboli(old(self).base(data, cc))
                    &&& final(self).codice_fiscale@ == con_controllo(old(self).base(data, cc))
                    &&& *final(self) == old(self).con_codice(final(self).codice_fiscale)
                },
                Err(Errore::ComuneNonTrovato { comune, provincia }) => {
                    &&& codice_comune(comuni@, old(self).comune@, old(self).provincia@) is None
                    &&& comune@ == old(self).comune@
                    &&& provincia@ == old(self).provincia@
                    &&& *final(self) == *old(self)
                },
                Err(Errore::DataNonValida) => {
                    &&& codice_comune(comuni@, old(self).comune@, old(self).provincia@) is Some
                    &&& data_letta(old(self).data_nascita@) is None
                    &&& *final(self) == *old(self)
                },
                Err(Errore::CarattereNonValido) => {
                    &&& codice_comune(comuni@, old(self).comune@, old(self).provincia@) matches Some(
                        cc,
                    )
                    &&& data_letta(old(self).data_nascita@) matches Some(data)
                    &&& !solo_simboli(old(self).base(data, cc))
                    &&& *final(self) == *old(self)
                },
            },
    {
        match valida_data(self.data_nascita.as_str()) {
            Some((giorno, mese, anno)) => {
                let codice = codice_dai_campi(
                    self.cognome.as_str(),
                    self.nome.as_str(),
                    self.sesso,
                    anno,
                    mese,
                    giorno,
                    self.comune.as_str(),
                    self.provincia.as_str(),
                    comuni,
                );
                match codice {
                    Ok(codice) => {
                        self.codice_fiscale = codice;
                        Ok(())
                    },
                    Err(e) => Err(e),
                }
            },
            None => match trova_codice_comune(
                comuni,
                self.comune.as_str(),
                self.provincia.as_str(),
            ) {
                Some(_) => Err(Errore::DataNonValida),
                None => Err(
                    Errore::ComuneNonTrovato {
                        comune: self.comune.clone(),
                        provincia: self.provincia.clone(),
                    },
                ),
            },
        }
    }
}

} // verus!
