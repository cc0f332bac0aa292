//! Dates written as `dd/mm/yyyy`: reading the three numbers, and asking the
//! calendar whether such a day exists.

use crate::testo::caratteri;
use chrono::{Datelike, NaiveDate};
use vstd::prelude::*;

verus! {

/// The first year of which the calendar knows the days.
pub const ANNO_MINIMO: i32 = -262143;

/// The last year of which the calendar knows the days.
pub const ANNO_MASSIMO: i32 = 262142;

/// A leap year of the Gregorian calendar, which is taken to hold for the
/// years before its introduction too.
pub open spec fn bisestile(anno: int) -> bool {
    anno % 4 == 0 && (anno % 100 != 0 || anno % 400 == 0)
}

/// The number of days of a month of a year.
pub open spec fn giorni_del_mese(anno: int, mese: int) -> int {
    if mese == 2 {
        if bisestile(anno) {
            29int
        } else {
            28int
        }
    } else if mese == 4 || mese == 6 || mese == 9 || mese == 11 {
        30int
    } else {
        31int
    }
}

/// There is such a day in the calendar.
pub open spec fn data_esistente(anno: int, mese: int, giorno: int) -> bool {
    &&& 1 <= mese <= 12
    &&& 1 <= giorno <= giorni_del_mese(anno, mese)
}

/// Day, month and year as the calendar hands them back: the same three
/// numbers for a day that exists, in a year from `ANNO_MINIMO` to
/// `ANNO_MASSIMO`; nothing for any other.
pub open spec fn data_del_calendario(anno: i32, mese: u32, giorno: u32) -> Option<(u32, u32, i32)> {
    if ANNO_MINIMO <= anno <= ANNO_MASSIMO && data_esistente(
        anno as int,
        mese as int,
        giorno as int,
    ) {
        Some((giorno, mese, anno))
    } else {
        None
    }
}

/// A decimal digit.
pub open spec fn cifra_decimale(c: char) -> bool {
    '0' <= c && c <= '9'
}

/// Every character of `s` is a decimal digit.
pub open spec fn solo_cifre(s: Seq<char>) -> bool {
    forall|i: int| 0 <= i < s.len() ==> cifra_decimale(#[trigger] s[i])
}

/// The number that the digits of `s` write in base ten.
pub open spec fn valore_cifre(s: Seq<char>) -> nat
    decreases s.len(),
{
    if s.len() == 0 {
        0
    } else {
        valore_cifre(s.drop_last()) * 10 + (s.last() as int - '0' as int) as nat
    }
}

/// The number that `s` writes: one digit or more, with or without a `+` in
/// front, and nothing else. Zeros in front are allowed.
pub open spec fn numero_naturale(s: Seq<char>) -> Option<nat> {
    let cifre = if s.len() > 0 && s[0] == '+' {
        s.skip(1)
    } else {
        s
    };
    if cifre.len() > 0 && solo_cifre(cifre) {
        Some(valore_cifre(cifre))
    } else {
        None
    }
}

/// The number that `s` writes, where it has no sign but `+` and fits in 32
/// bits.
pub open spec fn numero_u32(s: Seq<char>) -> Option<u32> {
    match numero_naturale(s) {
        Some(n) => if n <= u32::MAX {
            Some(n as u32)
        } else {
            None
        },
        None => None,
    }
}

/// The number that `s` writes, with or without a sign, where it fits in 32
/// bits with a sign.
pub open spec fn numero_i32(s: Seq<char>) -> Option<i32> {
    if s.len() > 0 && s[0] == '-' {
        let cifre = s.skip(1);
        if cifre.len() > 0 && solo_cifre(cifre) && valore_cifre(cifre) <= 0x8000_0000 {
            Some((-(valore_cifre(cifre) as int)) as i32)
        } else {
            None
        }
    } else {
        match numero_naturale(s) {
            Some(n) => if n <= i32::MAX {
                Some(n as i32)
            } else {
                None
            },
            None => None,
        }
    }
}

/// The index of the first `/` of `s` at the index `da` or after it; the
/// length of `s` where there is none.
pub open spec fn prima_barra(s: Seq<char>, da: int) -> int
    decreases s.len() - da,
{
    if da < 0 || da >= s.len() {
        s.len() as int
    } else if s[da] == '/' {
        da
    } else {
        prima_barra(s, da + 1)
    }
}

/// The three fields of a text that holds exactly two `/`: what stands before
/// the first, between the two, and after the second.
pub open spec fn campi_data(s: Seq<char>) -> Option<(Seq<char>, Seq<char>, Seq<char>)> {
    let i = prima_barra(s, 0);
    let j = prima_barra(s, i + 1);
    let k = prima_barra(s, j + 1);
    if i < s.len() && j < s.len() && k == s.len() {
        Some((s.subrange(0, i), s.subrange(i + 1, j), s.subrange(j + 1, s.len() as int)))
    } else {
        None
    }
}

/// A year as a number without sign. A year before the year zero becomes the
/// number that has the same 32 bits.
pub open spec fn anno_senza_segno(anno: i32) -> u32 {
    if anno >= 0 {
        anno as u32
    } else {
        (anno + 0x1_0000_0000) as u32
    }
}

/// Day, month and year of the date that `s` writes as `dd/mm/yyyy`: three
/// numbers parted by two `/`, the year with or without a sign, that name a
/// day of the calendar.
pub open spec fn data_letta(s: Seq<char>) -> Option<(u32, u32, u32)> {
    match campi_data(s) {
        Some((g, m, a)) => match (numero_u32(g), numero_u32(m), numero_i32(a)) {
            (Some(giorno), Some(mese), Some(anno)) => match data_del_calendario(
                anno,
                mese,
                giorno,
            ) {
                Some((g, m, a)) => Some((g, m, anno_senza_segno(a))),
                None => None,
            },
            _ => None,
        },
        None => None,
    }
}

/// The digits at the front of a number write no more than all of them.
proof fn lemma_valore_crescente(s: Seq<char>, k: int)
    requires
        solo_cifre(s),
        0 <= k <= s.len(),
    ensures
        valore_cifre(s.take(k)) <= valore_cifre(s),
    decreases s.len(),
{
    if k == s.len() {
        assert(s.take(k) =~= s);
    } else {
        let t = s.drop_last();
        assert(cifra_decimale(s[s.len() - 1]));
        assert forall|i: int| 0 <= i < t.len() implies cifra_decimale(#[trigger] t[i]) by {
            assert(t[i] == s[i]);
        }
        lemma_valore_crescente(t, k);
        assert(t.take(k) =~= s.take(k));
    }
}

/// `chrono::NaiveDate::from_ymd_opt`, and `Datelike::day`, `Datelike::month`
/// and `Datelike::year` of the date it makes. The date is made for the days
/// that exist in the Gregorian calendar, in the years from `ANNO_MINIMO` to
/// `ANNO_MASSIMO`, and for no others; day, month and year of the date made
/// are the numbers it was made from.
#[verifier::external_body]
fn data_di_calendario(anno: i32, mese: u32, giorno: u32) -> (r: Option<(u32, u32, i32)>)
    ensures
        r == data_del_calendario(anno, mese, giorno),
{
    NaiveDate::from_ymd_opt(anno, mese, giorno).map(|d| (d.day(), d.month(), d.year()))
}

/// The index of the first `/` of `v` at the index `da` or after it; the
/// length of `v` where there is none.
fn cerca_barra(v: &Vec<char>, da: usize) -> (i: usize)
    requires
        da <= v.len(),
    ensures
        i == prima_barra(v@, da as int),
        da <= i <= v.len(),
{
    let mut i = da;
    while i < v.len() && v[i] != '/'
        invariant
            da <= i <= v.len(),
            prima_barra(v@, da as int) == prima_barra(v@, i as int),
        decreases v.len() - i,
    {
        i += 1;
    }
    i
}

/// The number written by the characters of `v` from the index `da` up to
/// the index `a`, where they are digits, at least one, and the number is not
/// above `limite`.
fn leggi_cifre(v: &Vec<char>, da: usize, a: usize, limite: u64) -> (r: Option<u64>)
    requires
        da <= a <= v.len(),
        limite <= 0xFFFF_FFFF,
    ensures
        r == if da < a && solo_cifre(v@.subrange(da as int, a as int)) && valore_cifre(
            v@.subrange(da as int, a as int),
        ) <= limite {
            Some(valore_cifre(v@.subrange(da as int, a as int)) as u64)
        } else {
            None
        },
{
    if da >= a {
        return None;
    }
    let ghost tutte = v@.subrange(da as int, a as int);
    let mut n: u64 = 0;
    let mut i = da;
    while i < a
        invariant
            da <= i <= a <= v.len(),
            limite <= 0xFFFF_FFFF,
            tutte == v@.subrange(da as int, a as int),
            solo_cifre(v@.subrange(da as int, i as int)),
            n == valore_cifre(v@.subrange(da as int, i as int)),
            n <= limite,
        decreases a - i,
    {
        let c = v[i];
        if !('0' <= c && c <= '9') {
            assert(tutte[i - da] == c);
            return None;
        }
        let ghost prima = v@.subrange(da as int, i as int);
        let ghost dopo = v@.subrange(da as int, i + 1);
        proof {
            assert(dopo.drop_last() =~= prima);
            assert(dopo.last() == c);
            assert forall|k: int| 0 <= k < dopo.len() implies cifra_decimale(#[trigger] dopo[k]) by {
                if k < prima.len() {
                    assert(dopo[k] == prima[k]);
                }
            }
        }
        n = n * 10 + (c as u8 - 48) as u64;
        if n > limite {
            proof {
                if solo_cifre(tutte) {
                    lemma_valore_crescente(tutte, i + 1 - da);
                    assert(tutte.take(i + 1 - da) =~= dopo);
                }
            }
            return None;
        }
        i += 1;
    }
    assert(v@.subrange(da as int, i as int) =~= tutte);
    Some(n)
}

/// The number without sign written from the index `da` up to the index `a`.
fn leggi_u32(v: &Vec<char>, da: usize, a: usize) -> (r: Option<u32>)
    requires
        da <= a <= v.len(),
    ensures
        r == numero_u32(v@.subrange(da as int, a as int)),
{
    let ghost s = v@.subrange(da as int, a as int);
    let inizio = if da < a && v[da] == '+' {
        da + 1
    } else {
        da
    };
    proof {
        if da < a {
            assert(s[0] == v@[da as int]);
            assert(s.skip(1) =~= v@.subrange(da + 1, a as int));
        }
    }
    match leggi_cifre(v, inizio, a, 0xFFFF_FFFF) {
        Some(n) => Some(n as u32),
        None => None,
    }
}

/// The number, with or without a sign, written from the index `da` up to the
/// index `a`.
fn leggi_i32(v: &Vec<char>, da: usize, a: usize) -> (r: Option<i32>)
    requires
        da <= a <= v.len(),
    ensures
        r == numero_i32(v@.subrange(da as int, a as int)),
{
    let ghost s = v@.subrange(da as int, a as int);
    proof {
        if da < a {
            assert(s[0] == v@[da as int]);
            assert(s.skip(1) =~= v@.subrange(da + 1, a as int));
        }
    }
    if da < a && v[da] == '-' {
        match leggi_cifre(v, da + 1, a, 0x8000_0000) {
            Some(n) => Some((-(n as i64)) as i32),
            None => None,
        }
    } else {
        let inizio = if da < a && v[da] == '+' {
            da + 1
        } else {
            da
        };
        match leggi_cifre(v, inizio, a, 0x7FFF_FFFF) {
            Some(n) => Some(n as i32),
            None => None,
        }
    }
}

/// Day, month and year of the date that `data` writes as `dd/mm/yyyy`.
///
/// The text must hold three numbers parted by two `/`: the day, the month
/// and the year, each in digits, the year with or without a sign. They must
/// name a day that the calendar has. Any other text gives `None`.
pub fn valida_data(data: &str) -> (r: Option<(u32, u32, u32)>)
    ensures
        r == data_letta(data@),
{
    let v = caratteri(data);
    let i = cerca_barra(&v, 0);
    if i >= v.len() {
        return None;
    }
    let j = cerca_barra(&v, i + 1);
    if j >= v.len() {
        return None;
    }
    let k = cerca_barra(&v, j + 1);
    if k < v.len() {
        return None;
    }
    let giorno = match leggi_u32(&v, 0, i) {
        Some(n) => n,
        None => {
            return None;
        },
    };
    let mese = match leggi_u32(&v, i + 1, j) {
        Some(n) => n,
        None => {
            return None;
        },
    };
    let anno = match leggi_i32(&v, j + 1, v.len()) {
        Some(n) => n,
        None => {
            return None;
        },
    };
    match data_di_calendario(anno, mese, giorno) {
        Some((g, m, a)) => {
            let anno_u32 = if a >= 0 {
                a as u32
            } else {
                (a as i64 + 0x1_0000_0000) as u32
            };
            Some((g, m, anno_u32))
        },
        None => None,
    }
}

} // verus!
