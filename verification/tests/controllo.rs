use codice_fiscale::{genera_codice_controllo, Errore};

#[test]
fn carattere_di_controllo_di_un_codice() {
    assert_eq!(genera_codice_controllo("RSSMRA80A01H501"), Ok('U'));
    assert_eq!(genera_codice_controllo("MRTMTT91D08F205"), Ok('J'));
}

#[test]
fn testo_vuoto_somma_zero() {
    assert_eq!(genera_codice_controllo(""), Ok('A'));
}

#[test]
fn valori_dei_posti_dispari() {
    let simboli = "0123456789ABCDEFGHIJKLMNOPQRSTUVWXYZ";
    let valori: [u8; 36] = [
        1, 0, 5, 7, 9, 13, 15, 17, 19, 21, 1, 0, 5, 7, 9, 13, 15, 17, 19, 21, 2, 4, 18, 20, 11,
        3, 6, 8, 12, 14, 16, 10, 22, 25, 24, 23,
    ];
    for (simbolo, valore) in simboli.chars().zip(valori.iter()) {
        let atteso = (b'A' + valore) as char;
        assert_eq!(genera_codice_controllo(&simbolo.to_string()), Ok(atteso));
    }
}

#[test]
fn valori_dei_posti_pari() {
    let simboli = "0123456789ABCDEFGHIJKLMNOPQRSTUVWXYZ";
    let valori: [u8; 36] = [
        0, 1, 2, 3, 4, 5, 6, 7, 8, 9, 0, 1, 2, 3, 4, 5, 6, 7, 8, 9, 10, 11, 12, 13, 14, 15, 16,
        17, 18, 19, 20, 21, 22, 23, 24, 25,
    ];
    for (simbolo, valore) in simboli.chars().zip(valori.iter()) {
        // The symbol `1` has the value 0 at the first place.
        let atteso = (b'A' + valore) as char;
        assert_eq!(genera_codice_controllo(&format!("1{}", simbolo)), Ok(atteso));
    }
}

#[test]
fn resto_della_somma_per_ventisei() {
    // Z is worth 23 at an odd place and 25 at an even one.
    assert_eq!(genera_codice_controllo("Z"), Ok('X'));
    assert_eq!(genera_codice_controllo("ZZ"), Ok('W'));
    assert_eq!(genera_codice_controllo("ZZZ"), Ok('T'));
}

#[test]
fn stesso_codice_stesso_carattere() {
    let primo = genera_codice_controllo("BNCGPP75H30F205");
    let secondo = genera_codice_controllo("BNCGPP75H30F205");
    assert_eq!(primo, secondo);
    assert!(primo.is_ok());
}

#[test]
fn cifra_e_lettera_con_lo_stesso_valore() {
    // 0 and A, 1 and B, ... 9 and J have the same value at every place.
    assert_eq!(genera_codice_controllo("RSSMRA80A01H501"), Ok('U'));
    assert_eq!(genera_codice_controllo("RSSMRA8AA01H501"), Ok('U'));
    assert_eq!(genera_codice_controllo("RSSMRAI0A01H501"), Ok('U'));
    assert_eq!(genera_codice_controllo("RSSMRA80A01H5AB"), Ok('U'));
}

#[test]
fn un_carattere_cambiato_puo_cambiare_il_controllo() {
    assert_eq!(genera_codice_controllo("RSSMRA80A01H502"), Ok('Z'));
    assert_eq!(genera_codice_controllo("RSSMRA80A02H501"), Ok('Z'));
}

#[test]
fn carattere_fuori_dall_alfabeto() {
    assert_eq!(genera_codice_controllo("rssmra80a01h501"), Err(Errore::CarattereNonValido));
    assert_eq!(genera_codice_controllo("RSSMRA80A01H50 "), Err(Errore::CarattereNonValido));
    assert_eq!(genera_codice_controllo("RSSMRA80A01H50È"), Err(Errore::CarattereNonValido));
    assert_eq!(genera_codice_controllo("-"), Err(Errore::CarattereNonValido));
    assert_eq!(genera_codice_controllo("RSSMRA80A01XXXXX"), Ok('P'));
}

#[test]
fn testo_lungo_senza_traboccare() {
    let lungo = "Z".repeat(200_000);
    // 100000 * (23 + 25) = 4800000, and 4800000 = 26 * 184615 + 10.
    assert_eq!(genera_codice_controllo(&lungo), Ok('K'));
}
