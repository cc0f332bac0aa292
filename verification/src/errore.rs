//! What can go wrong while a fiscal code is computed.

use vstd::prelude::*;
use vstd::string::StringExecFns;

verus! {

/// The ways in which the computation of a fiscal code can fail.
#[derive(Debug, Clone, PartialEq, Eq)]
pub enum Errore {
    /// No municipality of the reference data has this name in this province.
    ComuneNonTrovato { comune: String, provincia: String },
    /// A character that is neither a digit nor an upper-case letter stands
    /// in the text whose check character was asked for.
    CarattereNonValido,
    /// The text is not a date of the calendar written as `dd/mm/yyyy`.
    DataNonValida,
}

impl Errore {
    /// The sentence that tells the user of the failure.
    pub open spec fn testo(self) -> Seq<char> {
        match self {
            Errore::ComuneNonTrovato { comune, provincia } => "Comune di "@ + comune@
                + ", in provincia di "@ + provincia@ + " non trovato."@,
            Errore::CarattereNonValido => "Carattere non valido nel codice fiscale."@,
            Errore::DataNonValida => "Data non valida. Inserisci una data nel formato dd/mm/yyyy."@,
        }
    }

    /// The sentence that tells the user of the failure. For a municipality
    /// that was not found it names the place that was looked for.
    pub fn messaggio(&self) -> (m: String)
        ensures
            m@ == self.testo(),
    {
        match self {
            Errore::ComuneNonTrovato { comune, provincia } => {
                let mut m = String::from_str("Comune di ");
                m.append(comune.as_str());
                m.append(", in provincia di ");
                m.append(provincia.as_str());
                m.append(" non trovato.");
                m
            },
            Errore::CarattereNonValido => String::from_str(
                "Carattere non valido nel codice fiscale.",
            ),
            Errore::DataNonValida => String::from_str(
                "Data non valida. Inserisci una data nel formato dd/mm/yyyy.",
            ),
        }
    }
}

} // verus!
