//! The five characters that stand for the date of birth and the sex.

use crate::controllo::{simbolo, solo_simboli};
use crate::testo::aggiungi_carattere;
use vstd::prelude::*;

verus! {

/// The letter of each month, from January to December.
pub const LETTERE_MESI: [char; 12] = ['A', 'B', 'C', 'D', 'E', 'H', 'L', 'M', 'P', 'R', 'S', 'T'];

/// The digit that writes a number from 0 to 9.
pub open spec fn cifra(n: int) -> char {
    ('0' as int + n) as char
}

/// A number written in decimal digits, without leading zeros.
pub open spec fn decimale(n: nat) -> Seq<char>
    decreases n,
{
    if n < 10 {
        seq![cifra(n as int)]
    } else {
        decimale(n / 10).push(cifra((n % 10) as int))
    }
}

/// A number written in decimal digits, with a zero in front where it would
/// otherwise have one digit only.
pub open spec fn due_cifre(n: nat) -> Seq<char> {
    if n < 10 {
        seq!['0', cifra(n as int)]
    } else {
        decimale(n)
    }
}

/// The letter of the month `mese`, January being 1. A number that names no
/// month gets `X`.
pub open spec fn lettera_mese(mese: int) -> char {
    if 1 <= mese <= 12 {
        LETTERE_MESI@[mese - 1]
    } else {
        'X'
    }
}

/// The number written in the place of the day: the day of the month, and 40
/// more for a woman. Every sex but `F` counts as male.
pub open spec fn giorno_con_sesso(giorno: int, sesso: char) -> int {
    if sesso == 'F' {
        giorno + 40
    } else {
        giorno
    }
}

/// The code of a date of birth: the last two digits of the year, the letter
/// of the month, and the day with the sex in two digits.
pub open spec fn codice_data(anno: int, mese: int, giorno: int, sesso: char) -> Seq<char> {
    due_cifre((anno % 100) as nat) + seq![lettera_mese(mese)] + due_cifre(
        giorno_con_sesso(giorno, sesso) as nat,
    )
}

/// A number is written in digits only; below 100 `due_cifre` writes it in
/// exactly two.
pub proof fn lemma_cifre(n: nat)
    ensures
        decimale(n).len() >= 1,
        n >= 10 ==> decimale(n).len() >= 2,
        n < 100 ==> due_cifre(n).len() == 2,
        n < 100 ==> due_cifre(n) == seq![cifra((n / 10) as int), cifra((n % 10) as int)],
        forall|i: int| 0 <= i < decimale(n).len() ==> simbolo(#[trigger] decimale(n)[i]),
        solo_simboli(due_cifre(n)),
    decreases n,
{
    if n >= 10 {
        lemma_cifre(n / 10);
        let d = decimale(n / 10);
        let c = cifra((n % 10) as int);
        assert forall|i: int| 0 <= i < decimale(n).len() implies simbolo(
            #[trigger] decimale(n)[i],
        ) by {
            if i < d.len() {
                assert(decimale(n)[i] == d[i]);
            }
        }
        if n < 100 {
            assert(decimale(n / 10) == seq![cifra((n / 10) as int)]);
            assert(decimale(n) =~= seq![cifra((n / 10) as int), cifra((n % 10) as int)]);
        }
    } else {
        assert(due_cifre(n) =~= seq![cifra((n / 10) as int), cifra((n % 10) as int)]);
    }
}

/// The code of a date whose day, with the sex, is below 100 has five
/// characters, all of them digits or upper-case letters. Every day of the
/// calendar is such a day, for either sex.
pub proof fn lemma_codice_data_cinque_simboli(anno: int, mese: int, giorno: int, sesso: char)
    requires
        0 <= anno,
        0 <= giorno_con_sesso(giorno, sesso) < 100,
    ensures
        codice_data(anno, mese, giorno, sesso).len() == 5,
        solo_simboli(codice_data(anno, mese, giorno, sesso)),
{
    let a = due_cifre((anno % 100) as nat);
    let g = due_cifre(giorno_con_sesso(giorno, sesso) as nat);
    let m = lettera_mese(mese);
    lemma_cifre((anno % 100) as nat);
    lemma_cifre(giorno_con_sesso(giorno, sesso) as nat);
    assert(simbolo(m));
    let c = codice_data(anno, mese, giorno, sesso);
    assert forall|i: int| 0 <= i < c.len() implies simbolo(#[trigger] c[i]) by {
        if i < 2 {
            assert(c[i] == a[i]);
        } else if i == 2 {
            assert(c[i] == m);
        } else {
            assert(c[i] == g[i - 3]);
        }
    }
}

/// The digit that writes `n`.
fn cifra_di(n: u8) -> (c: char)
    requires
        n < 10,
    ensures
        c == cifra(n as int),
{
    (48u8 + n) as char
}

/// Appends `n`, written in decimal digits, to `s`.
fn aggiungi_decimale(s: &mut String, n: u64)
    ensures
        final(s)@ == old(s)@ + decimale(n as nat),
    decreases n,
{
    if n >= 10 {
        aggiungi_decimale(s, n / 10);
    }
    aggiungi_carattere(s, cifra_di((n % 10) as u8));
    assert(final(s)@ =~= old(s)@ + decimale(n as nat));
}

/// Appends `n` to `s`, in two digits at least.
fn aggiungi_due_cifre(s: &mut String, n: u64)
    ensures
        final(s)@ == old(s)@ + due_cifre(n as nat),
{
    if n < 10 {
        aggiungi_carattere(s, '0');
    }
    aggiungi_decimale(s, n);
    assert(final(s)@ =~= old(s)@ + due_cifre(n as nat));
}

/// The letter of the month `mese`, or `X` where `mese` names no month.
fn lettera_del_mese(mese: u32) -> (c: char)
    ensures
        c == lettera_mese(mese as int),
{
    if 1 <= mese && mese <= 12 {
        LETTERE_MESI[(mese - 1) as usize]
    } else {
        'X'
    }
}

/// The letter that stands for the month `mese`, January being 1, as a text
/// of one character; `X` where `mese` names no month.
pub fn codice_mese(mese: u32) -> (codice: String)
    ensures
        codice@ == seq![lettera_mese(mese as int)],
{
    let mut codice = String::new();
    aggiungi_carattere(&mut codice, lettera_del_mese(mese));
    assert(codice@ =~= seq![lettera_mese(mese as int)]);
    codice
}

/// The code of the date of birth `giorno`/`mese`/`anno` of a person of sex
/// `sesso`: the year in its last two digits, the letter of the month, and the
/// day in two digits, to which 40 is added where `sesso` is `F`.
pub fn genera_codice_data_nascita(anno: u32, mese: u32, giorno: u32, sesso: char) -> (codice:
    String)
    ensures
        codice@ == codice_data(anno as int, mese as int, giorno as int, sesso),
        giorno_con_sesso(giorno as int, sesso) < 100 ==> codice@.len() == 5 && solo_simboli(
            codice@,
        ),
{
    let numero_giorno: u64 = if sesso == 'F' {
        giorno as u64 + 40
    } else {
        giorno as u64
    };
    let mut codice = String::new();
    aggiungi_due_cifre(&mut codice, (anno % 100) as u64);
    aggiungi_carattere(&mut codice, lettera_del_mese(mese));
    aggiungi_due_cifre(&mut codice, numero_giorno);
    proof {
        assert(codice@ =~= codice_data(anno as int, mese as int, giorno as int, sesso));
        if giorno_con_sesso(giorno as int, sesso) < 100 {
            lemma_codice_data_cinque_simboli(anno as int, mese as int, giorno as int, sesso);
        }
    }
    codice
}

} // verus!
