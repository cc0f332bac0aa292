use codice_fiscale::{trova_codice_comune, Comune};

fn comune(provincia: &str, nome: &str, codice: &str) -> Comune {
    Comune {
        sigla_provincia: provincia.to_string(),
        denominazione_ita: nome.to_string(),
        codice_belfiore: codice.to_string(),
    }
}

fn elenco() -> Vec<Comune> {
    vec![
        comune("TO", "Torino", "L219"),
        comune("RM", "Roma", "H501"),
        comune("MI", "Milano", "F205"),
        comune("NA", "Napoli", "F839"),
        comune("AQ", "L'Aquila", "A345"),
        comune("BS", "Calvisano", "B450"),
        comune("CO", "Livo", "E623"),
        comune("TN", "Livo", "E624"),
        comune("FC", "Forlì", "D704"),
    ]
}

#[test]
fn comune_trovato() {
    assert_eq!(trova_codice_comune(&elenco(), "Roma", "RM"), Some("H501".to_string()));
    assert_eq!(trova_codice_comune(&elenco(), "Torino", "TO"), Some("L219".to_string()));
    assert_eq!(trova_codice_comune(&elenco(), "Forlì", "FC"), Some("D704".to_string()));
}

#[test]
fn comune_trovato_senza_badare_alle_maiuscole() {
    assert_eq!(trova_codice_comune(&elenco(), "roma", "rm"), Some("H501".to_string()));
    assert_eq!(trova_codice_comune(&elenco(), "ROMA", "Rm"), Some("H501".to_string()));
    assert_eq!(trova_codice_comune(&elenco(), "l'aquila", "aq"), Some("A345".to_string()));
    assert_eq!(trova_codice_comune(&elenco(), "FORLì", "fc"), Some("D704".to_string()));
}

#[test]
fn lettere_accentate_distinte_per_maiuscola() {
    // Only the letters from A to Z are folded.
    assert_eq!(trova_codice_comune(&elenco(), "FORLÌ", "FC"), None);
    assert_eq!(trova_codice_comune(&elenco(), "Forli", "FC"), None);
}

#[test]
fn comune_assente() {
    assert_eq!(trova_codice_comune(&elenco(), "Nowhereland", "ZZ"), None);
    assert_eq!(trova_codice_comune(&[], "Roma", "RM"), None);
}

#[test]
fn provincia_sbagliata() {
    assert_eq!(trova_codice_comune(&elenco(), "Roma", "MI"), None);
    assert_eq!(trova_codice_comune(&elenco(), "Milano", "RM"), None);
}

#[test]
fn nome_solo_in_parte_uguale() {
    assert_eq!(trova_codice_comune(&elenco(), "Rom", "RM"), None);
    assert_eq!(trova_codice_comune(&elenco(), "Romano", "RM"), None);
    assert_eq!(trova_codice_comune(&elenco(), "Roma ", "RM"), None);
    assert_eq!(trova_codice_comune(&elenco(), "", "RM"), None);
    assert_eq!(trova_codice_comune(&elenco(), "Roma", ""), None);
    assert_eq!(trova_codice_comune(&elenco(), "Roma", "R"), None);
}

#[test]
fn stesso_nome_in_due_province() {
    assert_eq!(trova_codice_comune(&elenco(), "Livo", "TN"), Some("E624".to_string()));
    assert_eq!(trova_codice_comune(&elenco(), "Livo", "CO"), Some("E623".to_string()));
}

#[test]
fn tra_due_voci_uguali_vale_la_prima() {
    let doppio = vec![
        comune("MI", "Milano", "F205"),
        comune("RM", "Roma", "H501"),
        comune("rm", "ROMA", "Z999"),
    ];
    assert_eq!(trova_codice_comune(&doppio, "Roma", "RM"), Some("H501".to_string()));
    let rovesciato = vec![comune("rm", "ROMA", "Z999"), comune("RM", "Roma", "H501")];
    assert_eq!(trova_codice_comune(&rovesciato, "Roma", "RM"), Some("Z999".to_string()));
}
