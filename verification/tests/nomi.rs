use codice_fiscale::{estrai_consonanti_vocali, genera_codice_cognome, genera_codice_nome};

#[test]
fn lettere_divise_in_consonanti_e_vocali() {
    let (consonanti, vocali) = estrai_consonanti_vocali("Rossi");
    assert_eq!(consonanti, "RSS");
    assert_eq!(vocali, "OI");
}

#[test]
fn testo_vuoto_senza_lettere() {
    let (consonanti, vocali) = estrai_consonanti_vocali("");
    assert_eq!(consonanti, "");
    assert_eq!(vocali, "");
}

#[test]
fn apostrofi_spazi_e_cifre_cadono() {
    let (consonanti, vocali) = estrai_consonanti_vocali("D'Amico 2 - de Luca");
    assert_eq!(consonanti, "DMCDLC");
    assert_eq!(vocali, "AIOEUA");
}

#[test]
fn lettere_accentate_cadono() {
    let (consonanti, vocali) = estrai_consonanti_vocali("Niccolò");
    assert_eq!(consonanti, "NCCL");
    assert_eq!(vocali, "IO");
    let (consonanti, vocali) = estrai_consonanti_vocali("Üçé");
    assert_eq!(consonanti, "");
    assert_eq!(vocali, "");
}

#[test]
fn cognome_con_tre_consonanti() {
    assert_eq!(genera_codice_cognome("ROSSI"), "RSS");
}

#[test]
fn nome_con_meno_di_quattro_consonanti() {
    assert_eq!(genera_codice_nome("MARIA"), "MRA");
    assert_eq!(genera_codice_nome("Mario"), "MRA");
    assert_eq!(genera_codice_nome("Marco"), "MRC");
}

#[test]
fn nome_con_quattro_consonanti_o_piu() {
    assert_eq!(genera_codice_nome("ALESSANDRO"), "LSN");
    assert_eq!(genera_codice_nome("Gianfranco"), "GFR");
    assert_eq!(genera_codice_nome("Carla Sofia"), "CLS");
}

#[test]
fn cognome_non_salta_la_seconda_consonante() {
    assert_eq!(genera_codice_cognome("ALESSANDRO"), "LSS");
    assert_eq!(genera_codice_cognome("Gianfranco"), "GNF");
}

#[test]
fn nomi_corti_riempiti_con_x() {
    assert_eq!(genera_codice_nome(""), "XXX");
    assert_eq!(genera_codice_cognome(""), "XXX");
    assert_eq!(genera_codice_nome("'- 12"), "XXX");
    assert_eq!(genera_codice_cognome("Fo"), "FOX");
    assert_eq!(genera_codice_nome("Al"), "LAX");
    assert_eq!(genera_codice_nome("U"), "UXX");
    assert_eq!(genera_codice_cognome("Y"), "YXX");
}

#[test]
fn vocali_dopo_le_consonanti() {
    assert_eq!(genera_codice_nome("Ugo"), "GUO");
    assert_eq!(genera_codice_cognome("Aiello"), "LLA");
    assert_eq!(genera_codice_cognome("Eie"), "EIE");
    assert_eq!(genera_codice_nome("Aurelio"), "RLA");
}

#[test]
fn codice_uguale_con_maiuscole_o_minuscole() {
    assert_eq!(genera_codice_nome("alessandro"), genera_codice_nome("ALESSANDRO"));
    assert_eq!(genera_codice_nome("aLeSsAnDrO"), "LSN");
    assert_eq!(genera_codice_cognome("rossi"), "RSS");
    assert_eq!(genera_codice_cognome("rOSSi"), "RSS");
}

#[test]
fn codice_uguale_con_altri_caratteri_in_mezzo() {
    assert_eq!(genera_codice_cognome("R o's-s.i"), "RSS");
    assert_eq!(genera_codice_cognome(" De Rossi "), genera_codice_cognome("DeRossi"));
    assert_eq!(genera_codice_nome("Maria Grazia"), genera_codice_nome("MariaGrazia"));
    assert_eq!(genera_codice_nome("Maria Grazia"), "MGR");
    assert_eq!(genera_codice_nome("4l3ss4ndr0"), "LSN");
}

#[test]
fn stesso_nome_stesso_codice() {
    assert_eq!(genera_codice_nome("Giuseppe"), genera_codice_nome("Giuseppe"));
    assert_eq!(genera_codice_cognome("Bianchi"), genera_codice_cognome("Bianchi"));
    assert_eq!(genera_codice_cognome("Bianchi"), "BNC");
    assert_eq!(genera_codice_nome("Giuseppe"), "GPP");
}
