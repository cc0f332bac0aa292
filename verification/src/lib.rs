//! Computation of the Italian fiscal code from a person's data.
//!
//! The code has sixteen characters: three for the surname, three for the
//! given name, five for the date of birth and the sex, four for the
//! municipality of birth, and a check character computed from the other
//! fifteen.

pub mod calendario;
pub mod codice;
pub mod comune;
pub mod controllo;
pub mod data;
pub mod errore;
pub mod lettere;
pub mod modulo;
pub mod nome;
pub mod testo;

pub use crate::calendario::valida_data;
pub use crate::codice::{
    calcola_codice_fiscale, componi_codice_fiscale, genera_codice_fiscale, Persona, Sesso,
};
pub use crate::comune::{trova_codice_comune, Comune};
pub use crate::controllo::genera_codice_controllo;
pub use crate::data::{codice_mese, genera_codice_data_nascita};
pub use crate::errore::Errore;
pub use crate::lettere::estrai_consonanti_vocali;
pub use crate::modulo::CodiceFiscaleApp;
pub use crate::nome::{genera_codice_cognome, genera_codice_nome};
