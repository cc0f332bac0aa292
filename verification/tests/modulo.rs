use codice_fiscale::{CodiceFiscaleApp, Comune, Errore};

fn elenco() -> Vec<Comune> {
    vec![
        Comune {
            sigla_provincia: "RM".to_string(),
            denominazione_ita: "Roma".to_string(),
            codice_belfiore: "H501".to_string(),
        },
        Comune {
            sigla_provincia: "XX".to_string(),
            denominazione_ita: "Guasto".to_string(),
            codice_belfiore: "h501".to_string(),
        },
    ]
}

fn modulo_di_mario() -> CodiceFiscaleApp {
    CodiceFiscaleApp {
        nome: "Mario".to_string(),
        cognome: "Rossi".to_string(),
        sesso: 'M',
        data_nascita: "01/01/1980".to_string(),
        comune: "Roma".to_string(),
        provincia: "RM".to_string(),
        codice_fiscale: String::new(),
        verifica: false,
    }
}

#[test]
fn modulo_nuovo_vuoto() {
    let modulo = CodiceFiscaleApp::default();
    assert_eq!(modulo.nome, "");
    assert_eq!(modulo.cognome, "");
    assert_eq!(modulo.sesso, 'M');
    assert_eq!(modulo.data_nascita, "");
    assert_eq!(modulo.comune, "");
    assert_eq!(modulo.provincia, "");
    assert_eq!(modulo.codice_fiscale, "");
    assert!(!modulo.verifica);
}

#[test]
fn genera_scrive_il_codice() {
    let mut modulo = modulo_di_mario();
    assert_eq!(modulo.genera(&elenco()), Ok(()));
    assert_eq!(modulo.codice_fiscale, "RSSMRA80A01H501U");
    let mut atteso = modulo_di_mario();
    atteso.codice_fiscale = "RSSMRA80A01H501U".to_string();
    assert_eq!(modulo, atteso);
}

#[test]
fn genera_per_una_donna() {
    let mut modulo = modulo_di_mario();
    modulo.nome = "Maria".to_string();
    modulo.sesso = 'F';
    modulo.data_nascita = "25/12/1985".to_string();
    modulo.codice_fiscale = "vecchio".to_string();
    assert_eq!(modulo.genera(&elenco()), Ok(()));
    assert_eq!(modulo.codice_fiscale, "RSSMRA85T65H501F");
}

#[test]
fn genera_senza_comune() {
    let mut modulo = modulo_di_mario();
    modulo.comune = "Nowhereland".to_string();
    modulo.provincia = "ZZ".to_string();
    modulo.codice_fiscale = "prima".to_string();
    let prima = modulo.clone();
    assert_eq!(
        modulo.genera(&elenco()),
        Err(Errore::ComuneNonTrovato {
            comune: "Nowhereland".to_string(),
            provincia: "ZZ".to_string(),
        })
    );
    assert_eq!(modulo, prima);
}

#[test]
fn genera_con_data_sbagliata() {
    let mut modulo = modulo_di_mario();
    modulo.data_nascita = "30/02/1980".to_string();
    let prima = modulo.clone();
    assert_eq!(modulo.genera(&elenco()), Err(Errore::DataNonValida));
    assert_eq!(modulo, prima);
    modulo.data_nascita = String::new();
    assert_eq!(modulo.genera(&elenco()), Err(Errore::DataNonValida));
}

#[test]
fn comune_assente_prima_della_data_sbagliata() {
    let mut modulo = modulo_di_mario();
    modulo.data_nascita = "ieri".to_string();
    modulo.comune = "Nowhereland".to_string();
    modulo.provincia = "ZZ".to_string();
    assert_eq!(
        modulo.genera(&elenco()),
        Err(Errore::ComuneNonTrovato {
            comune: "Nowhereland".to_string(),
            provincia: "ZZ".to_string(),
        })
    );
}

#[test]
fn genera_con_codice_del_comune_guasto() {
    let mut modulo = modulo_di_mario();
    modulo.comune = "Guasto".to_string();
    modulo.provincia = "XX".to_string();
    let prima = modulo.clone();
    assert_eq!(modulo.genera(&elenco()), Err(Errore::CarattereNonValido));
    assert_eq!(modulo, prima);
}

#[test]
fn verifica_di_un_codice_di_sedici_byte() {
    let mut modulo = modulo_di_mario();
    modulo.verifica = true;
    modulo.codice_fiscale = "RSSMRA80A01H501U".to_string();
    modulo.verifica_codice();
    assert_eq!(modulo.codice_fiscale, "Codice fiscale valido");
    let mut atteso = modulo_di_mario();
    atteso.verifica = true;
    atteso.codice_fiscale = "Codice fiscale valido".to_string();
    assert_eq!(modulo, atteso);
}

#[test]
fn verifica_di_un_testo_di_altra_lunghezza() {
    let mut modulo = CodiceFiscaleApp::default();
    modulo.verifica_codice();
    assert_eq!(modulo.codice_fiscale, "Codice fiscale non valido");
    modulo.codice_fiscale = "RSSMRA80A01H501".to_string();
    modulo.verifica_codice();
    assert_eq!(modulo.codice_fiscale, "Codice fiscale non valido");
    modulo.codice_fiscale = "RSSMRA80A01H501UU".to_string();
    modulo.verifica_codice();
    assert_eq!(modulo.codice_fiscale, "Codice fiscale non valido");
}

#[test]
fn verifica_conta_i_byte() {
    let mut modulo = CodiceFiscaleApp::default();
    // Eight characters of two bytes each.
    modulo.codice_fiscale = "èèèèèèèè".to_string();
    modulo.verifica_codice();
    assert_eq!(modulo.codice_fiscale, "Codice fiscale valido");
    // Sixteen characters, seventeen bytes.
    modulo.codice_fiscale = "RSSMRA80A01H501È".to_string();
    modulo.verifica_codice();
    assert_eq!(modulo.codice_fiscale, "Codice fiscale non valido");
}

#[test]
fn pulisci_svuota_i_campi() {
    let mut modulo = modulo_di_mario();
    modulo.sesso = 'F';
    modulo.codice_fiscale = "RSSMRA80A01H501U".to_string();
    modulo.pulisci();
    assert_eq!(modulo, CodiceFiscaleApp::default());
}

#[test]
fn pulisci_lascia_la_scelta_del_pulsante() {
    let mut modulo = modulo_di_mario();
    modulo.verifica = true;
    modulo.pulisci();
    assert!(modulo.verifica);
    assert_eq!(modulo.nome, "");
    assert_eq!(modulo.sesso, 'M');
    assert_eq!(modulo.codice_fiscale, "");
}
