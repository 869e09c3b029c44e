//! The World Manufacturer Identifier registry: records keyed by the two- or
//! three-character prefix of a VIN, each carrying the country, region and
//! manufacturer that prefix encodes, and the prefix lookup over them.
//!
//! The registry is fixed at build time. Lookup attempts a three-character
//! prefix match first and falls back to a two-character one; where no record
//! matches at either length, every field is absent ([`registered`]): an
//! unknown prefix decodes to nothing, which is degraded data, not an error.
//! Within a record the data is tabulated by position: the manufacturer under
//! the full code (three characters, or two where only a two-character code
//! is registered), the country under the first two characters, stated over
//! ranges of a fixed character cycle, and the region under the first
//! character. So a matched record's country field is the two-character table
//! value, its region field the one-character table value.

use vstd::prelude::*;

use crate::vin::Vin;

verus! {

/// The view of an optional string: the character sequence it holds, if any.
pub open spec fn opt_str_view(o: Option<String>) -> Option<Seq<char>> {
    match o {
        Some(s) => Some(s@),
        None => None,
    }
}

/// The position of a character in the registry's character cycle
/// `ABCDEFGHJKLMNPRSTUVWXYZ1234567890`, over which country codes state
/// their second-character ranges; 33 for a character outside the cycle.
pub open spec fn cycle_pos(c: char) -> u32 {
    if c == 'A' {
        0
    } else
    if c == 'B' {
        1
    } else
    if c == 'C' {
        2
    } else
    if c == 'D' {
        3
    } else
    if c == 'E' {
        4
    } else
    if c == 'F' {
        5
    } else
    if c == 'G' {
        6
    } else
    if c == 'H' {
        7
    } else
    if c == 'J' {
        8
    } else
    if c == 'K' {
        9
    } else
    if c == 'L' {
        10
    } else
    if c == 'M' {
        11
    } else
    if c == 'N' {
        12
    } else
    if c == 'P' {
        13
    } else
    if c == 'R' {
        14
    } else
    if c == 'S' {
        15
    } else
    if c == 'T' {
        16
    } else
    if c == 'U' {
        17
    } else
    if c == 'V' {
        18
    } else
    if c == 'W' {
        19
    } else
    if c == 'X' {
        20
    } else
    if c == 'Y' {
        21
    } else
    if c == 'Z' {
        22
    } else
    if c == '1' {
        23
    } else
    if c == '2' {
        24
    } else
    if c == '3' {
        25
    } else
    if c == '4' {
        26
    } else
    if c == '5' {
        27
    } else
    if c == '6' {
        28
    } else
    if c == '7' {
        29
    } else
    if c == '8' {
        30
    } else
    if c == '9' {
        31
    } else
    if c == '0' {
        32
    } else {
        33
    }
}

/// The cycle position, as executable code.
fn cycle_pos_at(c: char) -> (p: u32)
    ensures
        p == cycle_pos(c),
{
    if c == 'A' {
        0
    } else
    if c == 'B' {
        1
    } else
    if c == 'C' {
        2
    } else
    if c == 'D' {
        3
    } else
    if c == 'E' {
        4
    } else
    if c == 'F' {
        5
    } else
    if c == 'G' {
        6
    } else
    if c == 'H' {
        7
    } else
    if c == 'J' {
        8
    } else
    if c == 'K' {
        9
    } else
    if c == 'L' {
        10
    } else
    if c == 'M' {
        11
    } else
    if c == 'N' {
        12
    } else
    if c == 'P' {
        13
    } else
    if c == 'R' {
        14
    } else
    if c == 'S' {
        15
    } else
    if c == 'T' {
        16
    } else
    if c == 'U' {
        17
    } else
    if c == 'V' {
        18
    } else
    if c == 'W' {
        19
    } else
    if c == 'X' {
        20
    } else
    if c == 'Y' {
        21
    } else
    if c == 'Z' {
        22
    } else
    if c == '1' {
        23
    } else
    if c == '2' {
        24
    } else
    if c == '3' {
        25
    } else
    if c == '4' {
        26
    } else
    if c == '5' {
        27
    } else
    if c == '6' {
        28
    } else
    if c == '7' {
        29
    } else
    if c == '8' {
        30
    } else
    if c == '9' {
        31
    } else
    if c == '0' {
        32
    } else {
        33
    }
}

/// The region encoded by the first character of a VIN.
pub open spec fn region_of(c: char) -> Option<Seq<char>> {
    if c == 'A' || c == 'B' || c == 'C' || c == 'D' || c == 'E' || c == 'F' || c == 'G' || c == 'H' {
        Some("Africa"@)
    } else
    if c == 'J' || c == 'K' || c == 'L' || c == 'M' || c == 'N' || c == 'P' || c == 'R' {
        Some("Asia"@)
    } else
    if c == 'S' || c == 'T' || c == 'U' || c == 'V' || c == 'W' || c == 'X' || c == 'Y' || c == 'Z' {
        Some("Europe"@)
    } else
    if c == '1' || c == '2' || c == '3' || c == '4' || c == '5' {
        Some("North America"@)
    } else
    if c == '6' || c == '7' {
        Some("Oceania"@)
    } else
    if c == '8' || c == '9' {
        Some("South America"@)
    } else {
        None
    }
}

/// Region lookup, as executable code.
fn region_lookup(c: char) -> (r: Option<String>)
    ensures
        opt_str_view(r) == region_of(c),
{
    if c == 'A' || c == 'B' || c == 'C' || c == 'D' || c == 'E' || c == 'F' || c == 'G' || c == 'H' {
        Some(String::from_str("Africa"))
    } else
    if c == 'J' || c == 'K' || c == 'L' || c == 'M' || c == 'N' || c == 'P' || c == 'R' {
        Some(String::from_str("Asia"))
    } else
    if c == 'S' || c == 'T' || c == 'U' || c == 'V' || c == 'W' || c == 'X' || c == 'Y' || c == 'Z' {
        Some(String::from_str("Europe"))
    } else
    if c == '1' || c == '2' || c == '3' || c == '4' || c == '5' {
        Some(String::from_str("North America"))
    } else
    if c == '6' || c == '7' {
        Some(String::from_str("Oceania"))
    } else
    if c == '8' || c == '9' {
        Some(String::from_str("South America"))
    } else {
        None
    }
}

pub open spec fn country_a(p: u32) -> Option<Seq<char>> {
    if 0 <= p && p <= 7 {
        Some("South Africa"@)
    } else
    if 8 <= p && p <= 12 {
        Some("Cote d'Ivoire"@)
    } else {
        None
    }
}

fn country_a_lookup(p: u32) -> (r: Option<String>)
    ensures
        opt_str_view(r) == country_a(p),
{
    if 0 <= p && p <= 7 {
        Some(String::from_str("South Africa"))
    } else
    if 8 <= p && p <= 12 {
        Some(String::from_str("Cote d'Ivoire"))
    } else {
        None
    }
}

pub open spec fn country_b(p: u32) -> Option<Seq<char>> {
    if 0 <= p && p <= 4 {
        Some("Angola"@)
    } else
    if 5 <= p && p <= 9 {
        Some("Kenya"@)
    } else
    if 10 <= p && p <= 14 {
        Some("Tanzania"@)
    } else {
        None
    }
}

fn country_b_lookup(p: u32) -> (r: Option<String>)
    ensures
        opt_str_view(r) == country_b(p),
{
    if 0 <= p && p <= 4 {
        Some(String::from_str("Angola"))
    } else
    if 5 <= p && p <= 9 {
        Some(String::from_str("Kenya"))
    } else
    if 10 <= p && p <= 14 {
        Some(String::from_str("Tanzania"))
    } else {
        None
    }
}

pub open spec fn country_c(p: u32) -> Option<Seq<char>> {
    if 0 <= p && p <= 4 {
        Some("Benin"@)
    } else
    if 5 <= p && p <= 9 {
        Some("Madagascar"@)
    } else
    if 10 <= p && p <= 14 {
        Some("Tunisia"@)
    } else {
        None
    }
}

fn country_c_lookup(p: u32) -> (r: Option<String>)
    ensures
        opt_str_view(r) == country_c(p),
{
    if 0 <= p && p <= 4 {
        Some(String::from_str("Benin"))
    } else
    if 5 <= p && p <= 9 {
        Some(String::from_str("Madagascar"))
    } else
    if 10 <= p && p <= 14 {
        Some(String::from_str("Tunisia"))
    } else {
        None
    }
}

pub open spec fn country_d(p: u32) -> Option<Seq<char>> {
    if 0 <= p && p <= 4 {
        Some("Egypt"@)
    } else
    if 5 <= p && p <= 9 {
        Some("Morocco"@)
    } else
    if 10 <= p && p <= 14 {
        Some("Zambia"@)
    } else {
        None
    }
}

fn country_d_lookup(p: u32) -> (r: Option<String>)
    ensures
        opt_str_view(r) == country_d(p),
{
    if 0 <= p && p <= 4 {
        Some(String::from_str("Egypt"))
    } else
    if 5 <= p && p <= 9 {
        Some(String::from_str("Morocco"))
    } else
    if 10 <= p && p <= 14 {
        Some(String::from_str("Zambia"))
    } else {
        None
    }
}

pub open spec fn country_e(p: u32) -> Option<Seq<char>> {
    if 0 <= p && p <= 4 {
        Some("Ethiopia"@)
    } else
    if 5 <= p && p <= 9 {
        Some("Mozambique"@)
    } else {
        None
    }
}

fn country_e_lookup(p: u32) -> (r: Option<String>)
    ensures
        opt_str_view(r) == country_e(p),
{
    if 0 <= p && p <= 4 {
        Some(String::from_str("Ethiopia"))
    } else
    if 5 <= p && p <= 9 {
        Some(String::from_str("Mozambique"))
    } else {
        None
    }
}

pub open spec fn country_f(p: u32) -> Option<Seq<char>> {
    if 0 <= p && p <= 4 {
        Some("Ghana"@)
    } else
    if 5 <= p && p <= 9 {
        Some("Nigeria"@)
    } else {
        None
    }
}

fn country_f_lookup(p: u32) -> (r: Option<String>)
    ensures
        opt_str_view(r) == country_f(p),
{
    if 0 <= p && p <= 4 {
        Some(String::from_str("Ghana"))
    } else
    if 5 <= p && p <= 9 {
        Some(String::from_str("Nigeria"))
    } else {
        None
    }
}

pub open spec fn country_j(p: u32) -> Option<Seq<char>> {
    if 0 <= p && p <= 32 {
        Some("Japan"@)
    } else {
        None
    }
}

fn country_j_lookup(p: u32) -> (r: Option<String>)
    ensures
        opt_str_view(r) == country_j(p),
{
    if 0 <= p && p <= 32 {
        Some(String::from_str("Japan"))
    } else {
        None
    }
}

pub open spec fn country_k(p: u32) -> Option<Seq<char>> {
    if 0 <= p && p <= 4 {
        Some("Sri Lanka"@)
    } else
    if 5 <= p && p <= 9 {
        Some("Israel"@)
    } else
    if 10 <= p && p <= 14 {
        Some("Korea (South)"@)
    } else
    if 15 <= p && p <= 32 {
        Some("Kazakhstan"@)
    } else {
        None
    }
}

fn country_k_lookup(p: u32) -> (r: Option<String>)
    ensures
        opt_str_view(r) == country_k(p),
{
    if 0 <= p && p <= 4 {
        Some(String::from_str("Sri Lanka"))
    } else
    if 5 <= p && p <= 9 {
        Some(String::from_str("Israel"))
    } else
    if 10 <= p && p <= 14 {
        Some(String::from_str("Korea (South)"))
    } else
    if 15 <= p && p <= 32 {
        Some(String::from_str("Kazakhstan"))
    } else {
        None
    }
}

pub open spec fn country_l(p: u32) -> Option<Seq<char>> {
    if 0 <= p && p <= 32 {
        Some("China (Mainland)"@)
    } else {
        None
    }
}

fn country_l_lookup(p: u32) -> (r: Option<String>)
    ensures
        opt_str_view(r) == country_l(p),
{
    if 0 <= p && p <= 32 {
        Some(String::from_str("China (Mainland)"))
    } else {
        None
    }
}

pub open spec fn country_m(p: u32) -> Option<Seq<char>> {
    if 0 <= p && p <= 4 {
        Some("India"@)
    } else
    if 5 <= p && p <= 9 {
        Some("Indonesia"@)
    } else
    if 10 <= p && p <= 14 {
        Some("Thailand"@)
    } else
    if 15 <= p && p <= 32 {
        Some("Myanmar"@)
    } else {
        None
    }
}

fn country_m_lookup(p: u32) -> (r: Option<String>)
    ensures
        opt_str_view(r) == country_m(p),
{
    if 0 <= p && p <= 4 {
        Some(String::from_str("India"))
    } else
    if 5 <= p && p <= 9 {
        Some(String::from_str("Indonesia"))
    } else
    if 10 <= p && p <= 14 {
        Some(String::from_str("Thailand"))
    } else
    if 15 <= p && p <= 32 {
        Some(String::from_str("Myanmar"))
    } else {
        None
    }
}

pub open spec fn country_n(p: u32) -> Option<Seq<char>> {
    if 0 <= p && p <= 4 {
        Some("Iran"@)
    } else
    if 5 <= p && p <= 9 {
        Some("Pakistan"@)
    } else
    if 10 <= p && p <= 14 {
        Some("Turkey"@)
    } else {
        None
    }
}

fn country_n_lookup(p: u32) -> (r: Option<String>)
    ensures
        opt_str_view(r) == country_n(p),
{
    if 0 <= p && p <= 4 {
        Some(String::from_str("Iran"))
    } else
    if 5 <= p && p <= 9 {
        Some(String::from_str("Pakistan"))
    } else
    if 10 <= p && p <= 14 {
        Some(String::from_str("Turkey"))
    } else {
        None
    }
}

pub open spec fn country_p(p: u32) -> Option<Seq<char>> {
    if 0 <= p && p <= 4 {
        Some("Philippines"@)
    } else
    if 5 <= p && p <= 9 {
        Some("Singapore"@)
    } else
    if 10 <= p && p <= 14 {
        Some("Malaysia"@)
    } else {
        None
    }
}

fn country_p_lookup(p: u32) -> (r: Option<String>)
    ensures
        opt_str_view(r) == country_p(p),
{
    if 0 <= p && p <= 4 {
        Some(String::from_str("Philippines"))
    } else
    if 5 <= p && p <= 9 {
        Some(String::from_str("Singapore"))
    } else
    if 10 <= p && p <= 14 {
        Some(String::from_str("Malaysia"))
    } else {
        None
    }
}

pub open spec fn country_r(p: u32) -> Option<Seq<char>> {
    if 0 <= p && p <= 4 {
        Some("United Arab Emirates"@)
    } else
    if 5 <= p && p <= 9 {
        Some("Taiwan, China"@)
    } else
    if 10 <= p && p <= 14 {
        Some("Vietnam"@)
    } else
    if 15 <= p && p <= 32 {
        Some("Saudi Arabia"@)
    } else {
        None
    }
}

fn country_r_lookup(p: u32) -> (r: Option<String>)
    ensures
        opt_str_view(r) == country_r(p),
{
    if 0 <= p && p <= 4 {
        Some(String::from_str("United Arab Emirates"))
    } else
    if 5 <= p && p <= 9 {
        Some(String::from_str("Taiwan, China"))
    } else
    if 10 <= p && p <= 14 {
        Some(String::from_str("Vietnam"))
    } else
    if 15 <= p && p <= 32 {
        Some(String::from_str("Saudi Arabia"))
    } else {
        None
    }
}

pub open spec fn country_s(p: u32) -> Option<Seq<char>> {
    if 0 <= p && p <= 11 {
        Some("United Kingdom"@)
    } else
    if 12 <= p && p <= 16 {
        Some("Germany/East Germany"@)
    } else
    if 17 <= p && p <= 22 {
        Some("Poland"@)
    } else
    if 23 <= p && p <= 26 {
        Some("Latvia"@)
    } else {
        None
    }
}

fn country_s_lookup(p: u32) -> (r: Option<String>)
    ensures
        opt_str_view(r) == country_s(p),
{
    if 0 <= p && p <= 11 {
        Some(String::from_str("United Kingdom"))
    } else
    if 12 <= p && p <= 16 {
        Some(String::from_str("Germany/East Germany"))
    } else
    if 17 <= p && p <= 22 {
        Some(String::from_str("Poland"))
    } else
    if 23 <= p && p <= 26 {
        Some(String::from_str("Latvia"))
    } else {
        None
    }
}

pub open spec fn country_t(p: u32) -> Option<Seq<char>> {
    if 0 <= p && p <= 7 {
        Some("Switzerland"@)
    } else
    if 8 <= p && p <= 13 {
        Some("Czech Republic"@)
    } else
    if 14 <= p && p <= 18 {
        Some("Hungary"@)
    } else
    if 19 <= p && p <= 23 {
        Some("Portugal"@)
    } else {
        None
    }
}

fn country_t_lookup(p: u32) -> (r: Option<String>)
    ensures
        opt_str_view(r) == country_t(p),
{
    if 0 <= p && p <= 7 {
        Some(String::from_str("Switzerland"))
    } else
    if 8 <= p && p <= 13 {
        Some(String::from_str("Czech Republic"))
    } else
    if 14 <= p && p <= 18 {
        Some(String::from_str("Hungary"))
    } else
    if 19 <= p && p <= 23 {
        Some(String::from_str("Portugal"))
    } else {
        None
    }
}

pub open spec fn country_u(p: u32) -> Option<Seq<char>> {
    if 7 <= p && p <= 11 {
        Some("Denmark"@)
    } else
    if 12 <= p && p <= 16 {
        Some("Ireland"@)
    } else
    if 17 <= p && p <= 22 {
        Some("Romania"@)
    } else
    if 27 <= p && p <= 29 {
        Some("Slovakia"@)
    } else {
        None
    }
}

fn country_u_lookup(p: u32) -> (r: Option<String>)
    ensures
        opt_str_view(r) == country_u(p),
{
    if 7 <= p && p <= 11 {
        Some(String::from_str("Denmark"))
    } else
    if 12 <= p && p <= 16 {
        Some(String::from_str("Ireland"))
    } else
    if 17 <= p && p <= 22 {
        Some(String::from_str("Romania"))
    } else
    if 27 <= p && p <= 29 {
        Some(String::from_str("Slovakia"))
    } else {
        None
    }
}

pub open spec fn country_v(p: u32) -> Option<Seq<char>> {
    if 0 <= p && p <= 4 {
        Some("Austria"@)
    } else
    if 5 <= p && p <= 14 {
        Some("France"@)
    } else
    if 15 <= p && p <= 19 {
        Some("Spain"@)
    } else
    if 20 <= p && p <= 24 {
        Some("Serbia"@)
    } else
    if 25 <= p && p <= 27 {
        Some("Croatia"@)
    } else
    if 28 <= p && p <= 32 {
        Some("Estonia"@)
    } else {
        None
    }
}

fn country_v_lookup(p: u32) -> (r: Option<String>)
    ensures
        opt_str_view(r) == country_v(p),
{
    if 0 <= p && p <= 4 {
        Some(String::from_str("Austria"))
    } else
    if 5 <= p && p <= 14 {
        Some(String::from_str("France"))
    } else
    if 15 <= p && p <= 19 {
        Some(String::from_str("Spain"))
    } else
    if 20 <= p && p <= 24 {
        Some(String::from_str("Serbia"))
    } else
    if 25 <= p && p <= 27 {
        Some(String::from_str("Croatia"))
    } else
    if 28 <= p && p <= 32 {
        Some(String::from_str("Estonia"))
    } else {
        None
    }
}

pub open spec fn country_w(p: u32) -> Option<Seq<char>> {
    if 0 <= p && p <= 32 {
        Some("Germany/West Germany"@)
    } else {
        None
    }
}

fn country_w_lookup(p: u32) -> (r: Option<String>)
    ensures
        opt_str_view(r) == country_w(p),
{
    if 0 <= p && p <= 32 {
        Some(String::from_str("Germany/West Germany"))
    } else {
        None
    }
}

pub open spec fn country_x(p: u32) -> Option<Seq<char>> {
    if 0 <= p && p <= 4 {
        Some("Bulgaria"@)
    } else
    if 5 <= p && p <= 9 {
        Some("Greece"@)
    } else
    if 10 <= p && p <= 14 {
        Some("Netherlands"@)
    } else
    if 15 <= p && p <= 19 {
        Some("USSR/CIS"@)
    } else
    if 20 <= p && p <= 24 {
        Some("Luxembourg"@)
    } else
    if 25 <= p && p <= 32 {
        Some("Russia"@)
    } else {
        None
    }
}

fn country_x_lookup(p: u32) -> (r: Option<String>)
    ensures
        opt_str_view(r) == country_x(p),
{
    if 0 <= p && p <= 4 {
        Some(String::from_str("Bulgaria"))
    } else
    if 5 <= p && p <= 9 {
        Some(String::from_str("Greece"))
    } else
    if 10 <= p && p <= 14 {
        Some(String::from_str("Netherlands"))
    } else
    if 15 <= p && p <= 19 {
        Some(String::from_str("USSR/CIS"))
    } else
    if 20 <= p && p <= 24 {
        Some(String::from_str("Luxembourg"))
    } else
    if 25 <= p && p <= 32 {
        Some(String::from_str("Russia"))
    } else {
        None
    }
}

pub open spec fn country_y(p: u32) -> Option<Seq<char>> {
    if 0 <= p && p <= 4 {
        Some("Belgium"@)
    } else
    if 5 <= p && p <= 9 {
        Some("Finland"@)
    } else
    if 10 <= p && p <= 14 {
        Some("Malta"@)
    } else
    if 15 <= p && p <= 19 {
        Some("Sweden"@)
    } else
    if 20 <= p && p <= 24 {
        Some("Norway"@)
    } else
    if 25 <= p && p <= 27 {
        Some("Belarus"@)
    } else
    if 28 <= p && p <= 32 {
        Some("Ukraine"@)
    } else {
        None
    }
}

fn country_y_lookup(p: u32) -> (r: Option<String>)
    ensures
        opt_str_view(r) == country_y(p),
{
    if 0 <= p && p <= 4 {
        Some(String::from_str("Belgium"))
    } else
    if 5 <= p && p <= 9 {
        Some(String::from_str("Finland"))
    } else
    if 10 <= p && p <= 14 {
        Some(String::from_str("Malta"))
    } else
    if 15 <= p && p <= 19 {
        Some(String::from_str("Sweden"))
    } else
    if 20 <= p && p <= 24 {
        Some(String::from_str("Norway"))
    } else
    if 25 <= p && p <= 27 {
        Some(String::from_str("Belarus"))
    } else
    if 28 <= p && p <= 32 {
        Some(String::from_str("Ukraine"))
    } else {
        None
    }
}

pub open spec fn country_z(p: u32) -> Option<Seq<char>> {
    if 0 <= p && p <= 14 {
        Some("Italy"@)
    } else
    if 20 <= p && p <= 24 {
        Some("Slovenia"@)
    } else
    if 25 <= p && p <= 27 {
        Some("Lithuania"@)
    } else {
        None
    }
}

fn country_z_lookup(p: u32) -> (r: Option<String>)
    ensures
        opt_str_view(r) == country_z(p),
{
    if 0 <= p && p <= 14 {
        Some(String::from_str("Italy"))
    } else
    if 20 <= p && p <= 24 {
        Some(String::from_str("Slovenia"))
    } else
    if 25 <= p && p <= 27 {
        Some(String::from_str("Lithuania"))
    } else {
        None
    }
}

pub open spec fn country_d1(p: u32) -> Option<Seq<char>> {
    if 0 <= p && p <= 32 {
        Some("United States"@)
    } else {
        None
    }
}

fn country_d1_lookup(p: u32) -> (r: Option<String>)
    ensures
        opt_str_view(r) == country_d1(p),
{
    if 0 <= p && p <= 32 {
        Some(String::from_str("United States"))
    } else {
        None
    }
}

pub open spec fn country_d2(p: u32) -> Option<Seq<char>> {
    if 0 <= p && p <= 32 {
        Some("Canada"@)
    } else {
        None
    }
}

fn country_d2_lookup(p: u32) -> (r: Option<String>)
    ensures
        opt_str_view(r) == country_d2(p),
{
    if 0 <= p && p <= 32 {
        Some(String::from_str("Canada"))
    } else {
        None
    }
}

pub open spec fn country_d3(p: u32) -> Option<Seq<char>> {
    if 0 <= p && p <= 19 {
        Some("Mexico"@)
    } else
    if 20 <= p && p <= 29 {
        Some("Costa Rica"@)
    } else
    if 30 <= p && p <= 31 {
        Some("Cayman Islands"@)
    } else {
        None
    }
}

fn country_d3_lookup(p: u32) -> (r: Option<String>)
    ensures
        opt_str_view(r) == country_d3(p),
{
    if 0 <= p && p <= 19 {
        Some(String::from_str("Mexico"))
    } else
    if 20 <= p && p <= 29 {
        Some(String::from_str("Costa Rica"))
    } else
    if 30 <= p && p <= 31 {
        Some(String::from_str("Cayman Islands"))
    } else {
        None
    }
}

pub open spec fn country_d4(p: u32) -> Option<Seq<char>> {
    if 0 <= p && p <= 32 {
        Some("United States"@)
    } else {
        None
    }
}

fn country_d4_lookup(p: u32) -> (r: Option<String>)
    ensures
        opt_str_view(r) == country_d4(p),
{
    if 0 <= p && p <= 32 {
        Some(String::from_str("United States"))
    } else {
        None
    }
}

pub open spec fn country_d5(p: u32) -> Option<Seq<char>> {
    if 0 <= p && p <= 32 {
        Some("United States"@)
    } else {
        None
    }
}

fn country_d5_lookup(p: u32) -> (r: Option<String>)
    ensures
        opt_str_view(r) == country_d5(p),
{
    if 0 <= p && p <= 32 {
        Some(String::from_str("United States"))
    } else {
        None
    }
}

pub open spec fn country_d6(p: u32) -> Option<Seq<char>> {
    if 0 <= p && p <= 32 {
        Some("Australia"@)
    } else {
        None
    }
}

fn country_d6_lookup(p: u32) -> (r: Option<String>)
    ensures
        opt_str_view(r) == country_d6(p),
{
    if 0 <= p && p <= 32 {
        Some(String::from_str("Australia"))
    } else {
        None
    }
}

pub open spec fn country_d7(p: u32) -> Option<Seq<char>> {
    if 0 <= p && p <= 32 {
        Some("New Zealand"@)
    } else {
        None
    }
}

fn country_d7_lookup(p: u32) -> (r: Option<String>)
    ensures
        opt_str_view(r) == country_d7(p),
{
    if 0 <= p && p <= 32 {
        Some(String::from_str("New Zealand"))
    } else {
        None
    }
}

pub open spec fn country_d8(p: u32) -> Option<Seq<char>> {
    if 0 <= p && p <= 4 {
        Some("Argentina"@)
    } else
    if 5 <= p && p <= 9 {
        Some("Chile"@)
    } else
    if 10 <= p && p <= 14 {
        Some("Ecuador"@)
    } else
    if 15 <= p && p <= 19 {
        Some("Peru"@)
    } else
    if 20 <= p && p <= 24 {
        Some("Venezuela"@)
    } else {
        None
    }
}

fn country_d8_lookup(p: u32) -> (r: Option<String>)
    ensures
        opt_str_view(r) == country_d8(p),
{
    if 0 <= p && p <= 4 {
        Some(String::from_str("Argentina"))
    } else
    if 5 <= p && p <= 9 {
        Some(String::from_str("Chile"))
    } else
    if 10 <= p && p <= 14 {
        Some(String::from_str("Ecuador"))
    } else
    if 15 <= p && p <= 19 {
        Some(String::from_str("Peru"))
    } else
    if 20 <= p && p <= 24 {
        Some(String::from_str("Venezuela"))
    } else {
        None
    }
}

pub open spec fn country_d9(p: u32) -> Option<Seq<char>> {
    if 0 <= p && p <= 4 {
        Some("Brazil"@)
    } else
    if 5 <= p && p <= 9 {
        Some("Colombia"@)
    } else
    if 10 <= p && p <= 14 {
        Some("Paraguay"@)
    } else
    if 15 <= p && p <= 19 {
        Some("Uruguay"@)
    } else
    if 20 <= p && p <= 24 {
        Some("Trinidad & Tobago"@)
    } else
    if 25 <= p && p <= 31 {
        Some("Brazil"@)
    } else {
        None
    }
}

fn country_d9_lookup(p: u32) -> (r: Option<String>)
    ensures
        opt_str_view(r) == country_d9(p),
{
    if 0 <= p && p <= 4 {
        Some(String::from_str("Brazil"))
    } else
    if 5 <= p && p <= 9 {
        Some(String::from_str("Colombia"))
    } else
    if 10 <= p && p <= 14 {
        Some(String::from_str("Paraguay"))
    } else
    if 15 <= p && p <= 19 {
        Some(String::from_str("Uruguay"))
    } else
    if 20 <= p && p <= 24 {
        Some(String::from_str("Trinidad & Tobago"))
    } else
    if 25 <= p && p <= 31 {
        Some(String::from_str("Brazil"))
    } else {
        None
    }
}

/// The country encoded by the first two characters of a VIN.
pub open spec fn country_of(c0: char, c1: char) -> Option<Seq<char>> {
    let p = cycle_pos(c1);
    if c0 == 'A' {
        country_a(p)
    } else
    if c0 == 'B' {
        country_b(p)
    } else
    if c0 == 'C' {
        country_c(p)
    } else
    if c0 == 'D' {
        country_d(p)
    } else
    if c0 == 'E' {
        country_e(p)
    } else
    if c0 == 'F' {
        country_f(p)
    } else
    if c0 == 'J' {
        country_j(p)
    } else
    if c0 == 'K' {
        country_k(p)
    } else
    if c0 == 'L' {
        country_l(p)
    } else
    if c0 == 'M' {
        country_m(p)
    } else
    if c0 == 'N' {
        country_n(p)
    } else
    if c0 == 'P' {
        country_p(p)
    } else
    if c0 == 'R' {
        country_r(p)
    } else
    if c0 == 'S' {
        country_s(p)
    } else
    if c0 == 'T' {
        country_t(p)
    } else
    if c0 == 'U' {
        country_u(p)
    } else
    if c0 == 'V' {
        country_v(p)
    } else
    if c0 == 'W' {
        country_w(p)
    } else
    if c0 == 'X' {
        country_x(p)
    } else
    if c0 == 'Y' {
        country_y(p)
    } else
    if c0 == 'Z' {
        country_z(p)
    } else
    if c0 == '1' {
        country_d1(p)
    } else
    if c0 == '2' {
        country_d2(p)
    } else
    if c0 == '3' {
        country_d3(p)
    } else
    if c0 == '4' {
        country_d4(p)
    } else
    if c0 == '5' {
        country_d5(p)
    } else
    if c0 == '6' {
        country_d6(p)
    } else
    if c0 == '7' {
        country_d7(p)
    } else
    if c0 == '8' {
        country_d8(p)
    } else
    if c0 == '9' {
        country_d9(p)
    } else {
        None
    }
}

/// Country lookup, as executable code.
fn country_lookup(c0: char, c1: char) -> (r: Option<String>)
    ensures
        opt_str_view(r) == country_of(c0, c1),
{
    let p = cycle_pos_at(c1);
    if c0 == 'A' {
        country_a_lookup(p)
    } else
    if c0 == 'B' {
        country_b_lookup(p)
    } else
    if c0 == 'C' {
        country_c_lookup(p)
    } else
    if c0 == 'D' {
        country_d_lookup(p)
    } else
    if c0 == 'E' {
        country_e_lookup(p)
    } else
    if c0 == 'F' {
        country_f_lookup(p)
    } else
    if c0 == 'J' {
        country_j_lookup(p)
    } else
    if c0 == 'K' {
        country_k_lookup(p)
    } else
    if c0 == 'L' {
        country_l_lookup(p)
    } else
    if c0 == 'M' {
        country_m_lookup(p)
    } else
    if c0 == 'N' {
        country_n_lookup(p)
    } else
    if c0 == 'P' {
        country_p_lookup(p)
    } else
    if c0 == 'R' {
        country_r_lookup(p)
    } else
    if c0 == 'S' {
        country_s_lookup(p)
    } else
    if c0 == 'T' {
        country_t_lookup(p)
    } else
    if c0 == 'U' {
        country_u_lookup(p)
    } else
    if c0 == 'V' {
        country_v_lookup(p)
    } else
    if c0 == 'W' {
        country_w_lookup(p)
    } else
    if c0 == 'X' {
        country_x_lookup(p)
    } else
    if c0 == 'Y' {
        country_y_lookup(p)
    } else
    if c0 == 'Z' {
        country_z_lookup(p)
    } else
    if c0 == '1' {
        country_d1_lookup(p)
    } else
    if c0 == '2' {
        country_d2_lookup(p)
    } else
    if c0 == '3' {
        country_d3_lookup(p)
    } else
    if c0 == '4' {
        country_d4_lookup(p)
    } else
    if c0 == '5' {
        country_d5_lookup(p)
    } else
    if c0 == '6' {
        country_d6_lookup(p)
    } else
    if c0 == '7' {
        country_d7_lookup(p)
    } else
    if c0 == '8' {
        country_d8_lookup(p)
    } else
    if c0 == '9' {
        country_d9_lookup(p)
    } else {
        None
    }
}

pub open spec fn maker3_a(c1: char, c2: char) -> Option<Seq<char>> {
    if c1 == 'A' && c2 == 'V' {
        Some("Volkswagen"@)
    } else
    if c1 == 'F' && c2 == 'A' {
        Some("Ford"@)
    } else
    if c1 == 'H' && c2 == 'T' {
        Some("Toyota"@)
    } else {
        None
    }
}

fn maker3_a_lookup(c1: char, c2: char) -> (r: Option<String>)
    ensures
        opt_str_view(r) == maker3_a(c1, c2),
{
    if c1 == 'A' && c2 == 'V' {
        Some(String::from_str("Volkswagen"))
    } else
    if c1 == 'F' && c2 == 'A' {
        Some(String::from_str("Ford"))
    } else
    if c1 == 'H' && c2 == 'T' {
        Some(String::from_str("Toyota"))
    } else {
        None
    }
}

pub open spec fn maker3_b(c1: char, c2: char) -> Option<Seq<char>> {
    if c1 == '0' && c2 == '1' {
        Some("Cadillac"@)
    } else {
        None
    }
}

fn maker3_b_lookup(c1: char, c2: char) -> (r: Option<String>)
    ensures
        opt_str_view(r) == maker3_b(c1, c2),
{
    if c1 == '0' && c2 == '1' {
        Some(String::from_str("Cadillac"))
    } else {
        None
    }
}

pub open spec fn maker3_c(c1: char, c2: char) -> Option<Seq<char>> {
    if c1 == 'F' && c2 == '1' {
        Some("Renault"@)
    } else
    if c1 == 'L' && c2 == '9' {
        Some("Wallyscar"@)
    } else {
        None
    }
}

fn maker3_c_lookup(c1: char, c2: char) -> (r: Option<String>)
    ensures
        opt_str_view(r) == maker3_c(c1, c2),
{
    if c1 == 'F' && c2 == '1' {
        Some(String::from_str("Renault"))
    } else
    if c1 == 'L' && c2 == '9' {
        Some(String::from_str("Wallyscar"))
    } else {
        None
    }
}

pub open spec fn maker3_e(c1: char, c2: char) -> Option<Seq<char>> {
    if c1 == 'D' && c2 == 'B' {
        Some("Mercedes-Benz"@)
    } else {
        None
    }
}

fn maker3_e_lookup(c1: char, c2: char) -> (r: Option<String>)
    ensures
        opt_str_view(r) == maker3_e(c1, c2),
{
    if c1 == 'D' && c2 == 'B' {
        Some(String::from_str("Mercedes-Benz"))
    } else {
        None
    }
}

pub open spec fn maker3_f(c1: char, c2: char) -> Option<Seq<char>> {
    if c1 == 'S' && c2 == 'M' {
        Some("FSM"@)
    } else
    if c1 == 'V' && c2 == '1' {
        Some("Renault"@)
    } else
    if c1 == 'V' && c2 == '3' {
        Some("Peugeot"@)
    } else
    if c1 == 'V' && c2 == '7' {
        Some("Citroen"@)
    } else {
        None
    }
}

fn maker3_f_lookup(c1: char, c2: char) -> (r: Option<String>)
    ensures
        opt_str_view(r) == maker3_f(c1, c2),
{
    if c1 == 'S' && c2 == 'M' {
        Some(String::from_str("FSM"))
    } else
    if c1 == 'V' && c2 == '1' {
        Some(String::from_str("Renault"))
    } else
    if c1 == 'V' && c2 == '3' {
        Some(String::from_str("Peugeot"))
    } else
    if c1 == 'V' && c2 == '7' {
        Some(String::from_str("Citroen"))
    } else {
        None
    }
}

pub open spec fn maker3_g(c1: char, c2: char) -> Option<Seq<char>> {
    if c1 == 'A' && c2 == '1' {
        Some("Renault"@)
    } else {
        None
    }
}

fn maker3_g_lookup(c1: char, c2: char) -> (r: Option<String>)
    ensures
        opt_str_view(r) == maker3_g(c1, c2),
{
    if c1 == 'A' && c2 == '1' {
        Some(String::from_str("Renault"))
    } else {
        None
    }
}

pub open spec fn maker3_j(c1: char, c2: char) -> Option<Seq<char>> {
    if c1 == 'A' && c2 == '3' {
        Some("Mitsubishi"@)
    } else
    if c1 == 'A' && c2 == '4' {
        Some("Mitsubishi"@)
    } else
    if c1 == 'B' && c2 == '3' {
        Some("Dodge"@)
    } else
    if c1 == 'C' && c2 == '1' {
        Some("Fiat Automobiles/Mazda"@)
    } else
    if c1 == 'D' && c2 == 'A' {
        Some("Daihatsu"@)
    } else
    if c1 == 'G' && c2 == 'N' {
        Some("Chevrolet"@)
    } else
    if c1 == 'H' && c2 == '4' {
        Some("Acura"@)
    } else
    if c1 == 'M' && c2 == 'B' {
        Some("Mitsubishi"@)
    } else
    if c1 == 'N' && c2 == 'K' {
        Some("Nissan Infiniti"@)
    } else
    if c1 == 'N' && c2 == 'R' {
        Some("Nissan Infiniti"@)
    } else
    if c1 == 'N' && c2 == 'T' {
        Some("Nissan Infiniti"@)
    } else
    if c1 == 'N' && c2 == 'X' {
        Some("Nissan Infiniti"@)
    } else
    if c1 == 'T' && c2 == 'H' {
        Some("Lexus"@)
    } else
    if c1 == 'T' && c2 == 'J' {
        Some("Lexus"@)
    } else
    if c1 == 'T' && c2 == 'K' {
        Some("Scion"@)
    } else
    if c1 == 'T' && c2 == 'L' {
        Some("Scion"@)
    } else {
        None
    }
}

fn maker3_j_lookup(c1: char, c2: char) -> (r: Option<String>)
    ensures
        opt_str_view(r) == maker3_j(c1, c2),
{
    if c1 == 'A' && c2 == '3' {
        Some(String::from_str("Mitsubishi"))
    } else
    if c1 == 'A' && c2 == '4' {
        Some(String::from_str("Mitsubishi"))
    } else
    if c1 == 'B' && c2 == '3' {
        Some(String::from_str("Dodge"))
    } else
    if c1 == 'C' && c2 == '1' {
        Some(String::from_str("Fiat Automobiles/Mazda"))
    } else
    if c1 == 'D' && c2 == 'A' {
        Some(String::from_str("Daihatsu"))
    } else
    if c1 == 'G' && c2 == 'N' {
        Some(String::from_str("Chevrolet"))
    } else
    if c1 == 'H' && c2 == '4' {
        Some(String::from_str("Acura"))
    } else
    if c1 == 'M' && c2 == 'B' {
        Some(String::from_str("Mitsubishi"))
    } else
    if c1 == 'N' && c2 == 'K' {
        Some(String::from_str("Nissan Infiniti"))
    } else
    if c1 == 'N' && c2 == 'R' {
        Some(String::from_str("Nissan Infiniti"))
    } else
    if c1 == 'N' && c2 == 'T' {
        Some(String::from_str("Nissan Infiniti"))
    } else
    if c1 == 'N' && c2 == 'X' {
        Some(String::from_str("Nissan Infiniti"))
    } else
    if c1 == 'T' && c2 == 'H' {
        Some(String::from_str("Lexus"))
    } else
    if c1 == 'T' && c2 == 'J' {
        Some(String::from_str("Lexus"))
    } else
    if c1 == 'T' && c2 == 'K' {
        Some(String::from_str("Scion"))
    } else
    if c1 == 'T' && c2 == 'L' {
        Some(String::from_str("Scion"))
    } else {
        None
    }
}

pub open spec fn maker3_k(c1: char, c2: char) -> Option<Seq<char>> {
    if c1 == 'L' && c2 == '1' {
        Some("Chevrolet"@)
    } else
    if c1 == 'L' && c2 == '4' {
        Some("Buick"@)
    } else
    if c1 == 'L' && c2 == '7' {
        Some("Chevrolet"@)
    } else
    if c1 == 'L' && c2 == '8' {
        Some("Chevrolet"@)
    } else
    if c1 == 'N' && c2 == 'M' {
        Some("Renault Samsung"@)
    } else
    if c1 == 'R' && c2 == 'X' {
        Some("BMW"@)
    } else {
        None
    }
}

fn maker3_k_lookup(c1: char, c2: char) -> (r: Option<String>)
    ensures
        opt_str_view(r) == maker3_k(c1, c2),
{
    if c1 == 'L' && c2 == '1' {
        Some(String::from_str("Chevrolet"))
    } else
    if c1 == 'L' && c2 == '4' {
        Some(String::from_str("Buick"))
    } else
    if c1 == 'L' && c2 == '7' {
        Some(String::from_str("Chevrolet"))
    } else
    if c1 == 'L' && c2 == '8' {
        Some(String::from_str("Chevrolet"))
    } else
    if c1 == 'N' && c2 == 'M' {
        Some(String::from_str("Renault Samsung"))
    } else
    if c1 == 'R' && c2 == 'X' {
        Some(String::from_str("BMW"))
    } else {
        None
    }
}

pub open spec fn maker3_l(c1: char, c2: char) -> Option<Seq<char>> {
    if c1 == '5' && c2 == '6' {
        Some("Renault Samsung"@)
    } else
    if c1 == '5' && c2 == 'Y' {
        Some("Merato Motorcycle Taizhou Zhongneng"@)
    } else
    if c1 == '6' && c2 == 'T' {
        Some("Geely"@)
    } else
    if c1 == 'B' && c2 == 'E' {
        Some("Beijing Hyundai"@)
    } else
    if c1 == 'B' && c2 == 'V' {
        Some("BMW Brilliance"@)
    } else
    if c1 == 'C' && c2 == '0' {
        Some("BYD Bus"@)
    } else
    if c1 == 'D' && c2 == 'C' {
        Some("Dongfeng Peugeot-Citroën"@)
    } else
    if c1 == 'D' && c2 == 'Y' {
        Some("Zhongtong Coach"@)
    } else
    if c1 == 'E' && c2 == '4' {
        Some("Beijing Benz"@)
    } else
    if c1 == 'F' && c2 == 'M' {
        Some("FAW Toyota"@)
    } else
    if c1 == 'F' && c2 == 'P' {
        Some("FAW Car"@)
    } else
    if c1 == 'F' && c2 == 'V' {
        Some("FAW-Volkswagen"@)
    } else
    if c1 == 'G' && c2 == 'B' {
        Some("Dongfeng Nissan"@)
    } else
    if c1 == 'G' && c2 == 'H' {
        Some("Dong Feng (DFM), China"@)
    } else
    if c1 == 'G' && c2 == 'J' {
        Some("Dongfeng Fengshen"@)
    } else
    if c1 == 'G' && c2 == 'W' {
        Some("Great Wall (Havel)"@)
    } else
    if c1 == 'G' && c2 == 'X' {
        Some("BYD Auto"@)
    } else
    if c1 == 'H' && c2 == '1' {
        Some("FAW Haima"@)
    } else
    if c1 == 'H' && c2 == 'G' {
        Some("Guangzhou Honda"@)
    } else
    if c1 == 'J' && c2 == '1' {
        Some("JAC"@)
    } else
    if c1 == 'J' && c2 == 'D' {
        Some("Dongfeng Yueda Kia"@)
    } else
    if c1 == 'K' && c2 == 'L' {
        Some("Suzhou King Long"@)
    } else
    if c1 == 'L' && c2 == 'V' {
        Some("Lifan"@)
    } else
    if c1 == 'M' && c2 == 'G' {
        Some("GAC Trumpchi"@)
    } else
    if c1 == 'P' && c2 == 'A' {
        Some("Changan PSA (DS Automobiles)"@)
    } else
    if c1 == 'R' && c2 == 'B' {
        Some("Buick China"@)
    } else
    if c1 == 'S' && c2 == '5' {
        Some("Changan Suzuki"@)
    } else
    if c1 == 'S' && c2 == 'G' {
        Some("SAIC General Motors"@)
    } else
    if c1 == 'S' && c2 == 'J' {
        Some("SAIC MG"@)
    } else
    if c1 == 'S' && c2 == 'V' {
        Some("SAIC Volkswagen"@)
    } else
    if c1 == 'S' && c2 == 'Y' {
        Some("Brilliance Zhonghua"@)
    } else
    if c1 == 'T' && c2 == 'V' {
        Some("FAW Toyota (Tianjin)"@)
    } else
    if c1 == 'U' && c2 == 'C' {
        Some("Honda"@)
    } else
    if c1 == 'V' && c2 == 'G' {
        Some("GAC Toyota"@)
    } else
    if c1 == 'V' && c2 == 'H' {
        Some("Dongfeng Honda"@)
    } else
    if c1 == 'V' && c2 == 'R' {
        Some("Changan Mazda"@)
    } else
    if c1 == 'V' && c2 == 'S' {
        Some("Changan Ford"@)
    } else
    if c1 == 'V' && c2 == 'V' {
        Some("Chery"@)
    } else
    if c1 == 'W' && c2 == 'V' {
        Some("GAC Fiat"@)
    } else
    if c1 == 'Y' && c2 == 'V' {
        Some("Volvo China"@)
    } else
    if c1 == 'Z' && c2 == 'E' {
        Some("Isuzu Guangzhou"@)
    } else
    if c1 == 'Z' && c2 == 'G' {
        Some("Shaanxi Automobile Group"@)
    } else
    if c1 == 'Z' && c2 == 'M' {
        Some("MAN"@)
    } else
    if c1 == 'Z' && c2 == 'W' {
        Some("SAIC GM Wuling"@)
    } else
    if c1 == 'Z' && c2 == 'Y' {
        Some("Yutong"@)
    } else {
        None
    }
}

fn maker3_l_lookup(c1: char, c2: char) -> (r: Option<String>)
    ensures
        opt_str_view(r) == maker3_l(c1, c2),
{
    if c1 == '5' && c2 == '6' {
        Some(String::from_str("Renault Samsung"))
    } else
    if c1 == '5' && c2 == 'Y' {
        Some(String::from_str("Merato Motorcycle Taizhou Zhongneng"))
    } else
    if c1 == '6' && c2 == 'T' {
        Some(String::from_str("Geely"))
    } else
    if c1 == 'B' && c2 == 'E' {
        Some(String::from_str("Beijing Hyundai"))
    } else
    if c1 == 'B' && c2 == 'V' {
        Some(String::from_str("BMW Brilliance"))
    } else
    if c1 == 'C' && c2 == '0' {
        Some(String::from_str("BYD Bus"))
    } else
    if c1 == 'D' && c2 == 'C' {
        Some(String::from_str("Dongfeng Peugeot-Citroën"))
    } else
    if c1 == 'D' && c2 == 'Y' {
        Some(String::from_str("Zhongtong Coach"))
    } else
    if c1 == 'E' && c2 == '4' {
        Some(String::from_str("Beijing Benz"))
    } else
    if c1 == 'F' && c2 == 'M' {
        Some(String::from_str("FAW Toyota"))
    } else
    if c1 == 'F' && c2 == 'P' {
        Some(String::from_str("FAW Car"))
    } else
    if c1 == 'F' && c2 == 'V' {
        Some(String::from_str("FAW-Volkswagen"))
    } else
    if c1 == 'G' && c2 == 'B' {
        Some(String::from_str("Dongfeng Nissan"))
    } else
    if c1 == 'G' && c2 == 'H' {
        Some(String::from_str("Dong Feng (DFM), China"))
    } else
    if c1 == 'G' && c2 == 'J' {
        Some(String::from_str("Dongfeng Fengshen"))
    } else
    if c1 == 'G' && c2 == 'W' {
        Some(String::from_str("Great Wall (Havel)"))
    } else
    if c1 == 'G' && c2 == 'X' {
        Some(String::from_str("BYD Auto"))
    } else
    if c1 == 'H' && c2 == '1' {
        Some(String::from_str("FAW Haima"))
    } else
    if c1 == 'H' && c2 == 'G' {
        Some(String::from_str("Guangzhou Honda"))
    } else
    if c1 == 'J' && c2 == '1' {
        Some(String::from_str("JAC"))
    } else
    if c1 == 'J' && c2 == 'D' {
        Some(String::from_str("Dongfeng Yueda Kia"))
    } else
    if c1 == 'K' && c2 == 'L' {
        Some(String::from_str("Suzhou King Long"))
    } else
    if c1 == 'L' && c2 == 'V' {
        Some(String::from_str("Lifan"))
    } else
    if c1 == 'M' && c2 == 'G' {
        Some(String::from_str("GAC Trumpchi"))
    } else
    if c1 == 'P' && c2 == 'A' {
        Some(String::from_str("Changan PSA (DS Automobiles)"))
    } else
    if c1 == 'R' && c2 == 'B' {
        Some(String::from_str("Buick China"))
    } else
    if c1 == 'S' && c2 == '5' {
        Some(String::from_str("Changan Suzuki"))
    } else
    if c1 == 'S' && c2 == 'G' {
        Some(String::from_str("SAIC General Motors"))
    } else
    if c1 == 'S' && c2 == 'J' {
        Some(String::from_str("SAIC MG"))
    } else
    if c1 == 'S' && c2 == 'V' {
        Some(String::from_str("SAIC Volkswagen"))
    } else
    if c1 == 'S' && c2 == 'Y' {
        Some(String::from_str("Brilliance Zhonghua"))
    } else
    if c1 == 'T' && c2 == 'V' {
        Some(String::from_str("FAW Toyota (Tianjin)"))
    } else
    if c1 == 'U' && c2 == 'C' {
        Some(String::from_str("Honda"))
    } else
    if c1 == 'V' && c2 == 'G' {
        Some(String::from_str("GAC Toyota"))
    } else
    if c1 == 'V' && c2 == 'H' {
        Some(String::from_str("Dongfeng Honda"))
    } else
    if c1 == 'V' && c2 == 'R' {
        Some(String::from_str("Changan Mazda"))
    } else
    if c1 == 'V' && c2 == 'S' {
        Some(String::from_str("Changan Ford"))
    } else
    if c1 == 'V' && c2 == 'V' {
        Some(String::from_str("Chery"))
    } else
    if c1 == 'W' && c2 == 'V' {
        Some(String::from_str("GAC Fiat"))
    } else
    if c1 == 'Y' && c2 == 'V' {
        Some(String::from_str("Volvo China"))
    } else
    if c1 == 'Z' && c2 == 'E' {
        Some(String::from_str("Isuzu Guangzhou"))
    } else
    if c1 == 'Z' && c2 == 'G' {
        Some(String::from_str("Shaanxi Automobile Group"))
    } else
    if c1 == 'Z' && c2 == 'M' {
        Some(String::from_str("MAN"))
    } else
    if c1 == 'Z' && c2 == 'W' {
        Some(String::from_str("SAIC GM Wuling"))
    } else
    if c1 == 'Z' && c2 == 'Y' {
        Some(String::from_str("Yutong"))
    } else {
        None
    }
}

pub open spec fn maker3_m(c1: char, c2: char) -> Option<Seq<char>> {
    if c1 == 'A' && c2 == '1' {
        Some("Mahindra"@)
    } else
    if c1 == 'A' && c2 == '3' {
        Some("Suzuki"@)
    } else
    if c1 == 'A' && c2 == '7' {
        Some("Honda Siel Cars"@)
    } else
    if c1 == 'A' && c2 == 'J' {
        Some("FordS"@)
    } else
    if c1 == 'A' && c2 == 'L' {
        Some("Hyundai"@)
    } else
    if c1 == 'A' && c2 == 'T' {
        Some("Tata"@)
    } else
    if c1 == 'B' && c2 == 'H' {
        Some("Nissan"@)
    } else
    if c1 == 'C' && c2 == '2' {
        Some("Volvo Eicher commercial vehicles limited."@)
    } else
    if c1 == 'D' && c2 == 'H' {
        Some("Nissan"@)
    } else
    if c1 == 'H' && c2 == 'R' {
        Some("Honda"@)
    } else
    if c1 == 'L' && c2 == '3' {
        Some("Mitsubishi Thailand"@)
    } else
    if c1 == 'M' && c2 == '0' {
        Some("Mazda"@)
    } else
    if c1 == 'M' && c2 == '8' {
        Some("Mazda"@)
    } else
    if c1 == 'M' && c2 == 'B' {
        Some("Mitsubishi"@)
    } else
    if c1 == 'M' && c2 == 'C' {
        Some("Mitsubishi"@)
    } else
    if c1 == 'M' && c2 == 'M' {
        Some("Chevrolet"@)
    } else
    if c1 == 'M' && c2 == 'S' {
        Some("Suzuki"@)
    } else
    if c1 == 'M' && c2 == 'T' {
        Some("Mitsubishi"@)
    } else
    if c1 == 'N' && c2 == 'B' {
        Some("Ford"@)
    } else
    if c1 == 'N' && c2 == 'T' {
        Some("Nissan"@)
    } else
    if c1 == 'P' && c2 == '1' {
        Some("Isuzu"@)
    } else
    if c1 == 'P' && c2 == 'A' {
        Some("Isuzu"@)
    } else
    if c1 == 'R' && c2 == '0' {
        Some("Toyota"@)
    } else
    if c1 == 'R' && c2 == 'H' {
        Some("Honda"@)
    } else
    if c1 == 'S' && c2 == '0' {
        Some("KIA Myanmar"@)
    } else {
        None
    }
}

fn maker3_m_lookup(c1: char, c2: char) -> (r: Option<String>)
    ensures
        opt_str_view(r) == maker3_m(c1, c2),
{
    if c1 == 'A' && c2 == '1' {
        Some(String::from_str("Mahindra"))
    } else
    if c1 == 'A' && c2 == '3' {
        Some(String::from_str("Suzuki"))
    } else
    if c1 == 'A' && c2 == '7' {
        Some(String::from_str("Honda Siel Cars"))
    } else
    if c1 == 'A' && c2 == 'J' {
        Some(String::from_str("FordS"))
    } else
    if c1 == 'A' && c2 == 'L' {
        Some(String::from_str("Hyundai"))
    } else
    if c1 == 'A' && c2 == 'T' {
        Some(String::from_str("Tata"))
    } else
    if c1 == 'B' && c2 == 'H' {
        Some(String::from_str("Nissan"))
    } else
    if c1 == 'C' && c2 == '2' {
        Some(String::from_str("Volvo Eicher commercial vehicles limited."))
    } else
    if c1 == 'D' && c2 == 'H' {
        Some(String::from_str("Nissan"))
    } else
    if c1 == 'H' && c2 == 'R' {
        Some(String::from_str("Honda"))
    } else
    if c1 == 'L' && c2 == '3' {
        Some(String::from_str("Mitsubishi Thailand"))
    } else
    if c1 == 'M' && c2 == '0' {
        Some(String::from_str("Mazda"))
    } else
    if c1 == 'M' && c2 == '8' {
        Some(String::from_str("Mazda"))
    } else
    if c1 == 'M' && c2 == 'B' {
        Some(String::from_str("Mitsubishi"))
    } else
    if c1 == 'M' && c2 == 'C' {
        Some(String::from_str("Mitsubishi"))
    } else
    if c1 == 'M' && c2 == 'M' {
        Some(String::from_str("Chevrolet"))
    } else
    if c1 == 'M' && c2 == 'S' {
        Some(String::from_str("Suzuki"))
    } else
    if c1 == 'M' && c2 == 'T' {
        Some(String::from_str("Mitsubishi"))
    } else
    if c1 == 'N' && c2 == 'B' {
        Some(String::from_str("Ford"))
    } else
    if c1 == 'N' && c2 == 'T' {
        Some(String::from_str("Nissan"))
    } else
    if c1 == 'P' && c2 == '1' {
        Some(String::from_str("Isuzu"))
    } else
    if c1 == 'P' && c2 == 'A' {
        Some(String::from_str("Isuzu"))
    } else
    if c1 == 'R' && c2 == '0' {
        Some(String::from_str("Toyota"))
    } else
    if c1 == 'R' && c2 == 'H' {
        Some(String::from_str("Honda"))
    } else
    if c1 == 'S' && c2 == '0' {
        Some(String::from_str("KIA Myanmar"))
    } else {
        None
    }
}

pub open spec fn maker3_n(c1: char, c2: char) -> Option<Seq<char>> {
    if c1 == 'L' && c2 == 'A' {
        Some("Honda"@)
    } else
    if c1 == 'L' && c2 == 'E' {
        Some("Mercedes-Benz Turk Truck"@)
    } else
    if c1 == 'L' && c2 == 'H' {
        Some("Hyundai"@)
    } else
    if c1 == 'L' && c2 == 'J' {
        Some("Hyundai"@)
    } else
    if c1 == 'M' && c2 == '0' {
        Some("Ford Otosan"@)
    } else
    if c1 == 'M' && c2 == '4' {
        Some("Tofas Turk"@)
    } else
    if c1 == 'M' && c2 == 'T' {
        Some("Toyota"@)
    } else {
        None
    }
}

fn maker3_n_lookup(c1: char, c2: char) -> (r: Option<String>)
    ensures
        opt_str_view(r) == maker3_n(c1, c2),
{
    if c1 == 'L' && c2 == 'A' {
        Some(String::from_str("Honda"))
    } else
    if c1 == 'L' && c2 == 'E' {
        Some(String::from_str("Mercedes-Benz Turk Truck"))
    } else
    if c1 == 'L' && c2 == 'H' {
        Some(String::from_str("Hyundai"))
    } else
    if c1 == 'L' && c2 == 'J' {
        Some(String::from_str("Hyundai"))
    } else
    if c1 == 'M' && c2 == '0' {
        Some(String::from_str("Ford Otosan"))
    } else
    if c1 == 'M' && c2 == '4' {
        Some(String::from_str("Tofas Turk"))
    } else
    if c1 == 'M' && c2 == 'T' {
        Some(String::from_str("Toyota"))
    } else {
        None
    }
}

pub open spec fn maker3_p(c1: char, c2: char) -> Option<Seq<char>> {
    if c1 == 'E' && c2 == '1' {
        Some("Ford"@)
    } else
    if c1 == 'E' && c2 == '3' {
        Some("Mazda"@)
    } else
    if c1 == 'L' && c2 == '1' {
        Some("Proton"@)
    } else {
        None
    }
}

fn maker3_p_lookup(c1: char, c2: char) -> (r: Option<String>)
    ensures
        opt_str_view(r) == maker3_p(c1, c2),
{
    if c1 == 'E' && c2 == '1' {
        Some(String::from_str("Ford"))
    } else
    if c1 == 'E' && c2 == '3' {
        Some(String::from_str("Mazda"))
    } else
    if c1 == 'L' && c2 == '1' {
        Some(String::from_str("Proton"))
    } else {
        None
    }
}

pub open spec fn maker3_s(c1: char, c2: char) -> Option<Seq<char>> {
    if c1 == 'A' && c2 == 'D' {
        Some("Jaguar"@)
    } else
    if c1 == 'A' && c2 == 'H' {
        Some("Honda"@)
    } else
    if c1 == 'A' && c2 == 'J' {
        Some("Jaguar"@)
    } else
    if c1 == 'A' && c2 == 'L' {
        Some("Land Rover"@)
    } else
    if c1 == 'A' && c2 == 'R' {
        Some("Rover"@)
    } else
    if c1 == 'A' && c2 == 'T' {
        Some("Triumph"@)
    } else
    if c1 == 'A' && c2 == 'X' {
        Some("Rover"@)
    } else
    if c1 == 'B' && c2 == '1' {
        Some("Toyota"@)
    } else
    if c1 == 'B' && c2 == 'M' {
        Some("Mclaren"@)
    } else
    if c1 == 'C' && c2 == 'A' {
        Some("Rolls Royce"@)
    } else
    if c1 == 'C' && c2 == 'B' {
        Some("Bentley"@)
    } else
    if c1 == 'C' && c2 == 'C' {
        Some("Lotus Cars"@)
    } else
    if c1 == 'C' && c2 == 'E' {
        Some("DeLorean"@)
    } else
    if c1 == 'C' && c2 == 'F' {
        Some("Aston Martin Lagonda Limited"@)
    } else
    if c1 == 'D' && c2 == 'B' {
        Some("Peugeot UK"@)
    } else
    if c1 == 'E' && c2 == 'D' {
        Some("Opel"@)
    } else
    if c1 == 'E' && c2 == 'Y' {
        Some("LDV"@)
    } else
    if c1 == 'F' && c2 == 'A' {
        Some("Ford"@)
    } else
    if c1 == 'F' && c2 == 'D' {
        Some("Alexander Dennis"@)
    } else
    if c1 == 'H' && c2 == 'H' {
        Some("Honda"@)
    } else
    if c1 == 'H' && c2 == 'S' {
        Some("Honda"@)
    } else
    if c1 == 'J' && c2 == 'K' {
        Some("Nissan Infiniti"@)
    } else
    if c1 == 'J' && c2 == 'N' {
        Some("Nissan"@)
    } else
    if c1 == 'K' && c2 == 'F' {
        Some("Opel"@)
    } else
    if c1 == 'N' && c2 == 'E' {
        Some("Jeep"@)
    } else
    if c1 == 'N' && c2 == 'T' {
        Some("Honda"@)
    } else
    if c1 == 'U' && c2 == '9' {
        Some("Solaris Bus & Coach"@)
    } else
    if c1 == 'U' && c2 == 'F' {
        Some("Fiat Auto Poland / FSM"@)
    } else
    if c1 == 'U' && c2 == 'L' {
        Some("Daewoo Poland / FSO"@)
    } else
    if c1 == 'U' && c2 == 'P' {
        Some("Daewoo Poland / FSO"@)
    } else
    if c1 == 'U' && c2 == 'R' {
        Some("Land Rover"@)
    } else {
        None
    }
}

fn maker3_s_lookup(c1: char, c2: char) -> (r: Option<String>)
    ensures
        opt_str_view(r) == maker3_s(c1, c2),
{
    if c1 == 'A' && c2 == 'D' {
        Some(String::from_str("Jaguar"))
    } else
    if c1 == 'A' && c2 == 'H' {
        Some(String::from_str("Honda"))
    } else
    if c1 == 'A' && c2 == 'J' {
        Some(String::from_str("Jaguar"))
    } else
    if c1 == 'A' && c2 == 'L' {
        Some(String::from_str("Land Rover"))
    } else
    if c1 == 'A' && c2 == 'R' {
        Some(String::from_str("Rover"))
    } else
    if c1 == 'A' && c2 == 'T' {
        Some(String::from_str("Triumph"))
    } else
    if c1 == 'A' && c2 == 'X' {
        Some(String::from_str("Rover"))
    } else
    if c1 == 'B' && c2 == '1' {
        Some(String::from_str("Toyota"))
    } else
    if c1 == 'B' && c2 == 'M' {
        Some(String::from_str("Mclaren"))
    } else
    if c1 == 'C' && c2 == 'A' {
        Some(String::from_str("Rolls Royce"))
    } else
    if c1 == 'C' && c2 == 'B' {
        Some(String::from_str("Bentley"))
    } else
    if c1 == 'C' && c2 == 'C' {
        Some(String::from_str("Lotus Cars"))
    } else
    if c1 == 'C' && c2 == 'E' {
        Some(String::from_str("DeLorean"))
    } else
    if c1 == 'C' && c2 == 'F' {
        Some(String::from_str("Aston Martin Lagonda Limited"))
    } else
    if c1 == 'D' && c2 == 'B' {
        Some(String::from_str("Peugeot UK"))
    } else
    if c1 == 'E' && c2 == 'D' {
        Some(String::from_str("Opel"))
    } else
    if c1 == 'E' && c2 == 'Y' {
        Some(String::from_str("LDV"))
    } else
    if c1 == 'F' && c2 == 'A' {
        Some(String::from_str("Ford"))
    } else
    if c1 == 'F' && c2 == 'D' {
        Some(String::from_str("Alexander Dennis"))
    } else
    if c1 == 'H' && c2 == 'H' {
        Some(String::from_str("Honda"))
    } else
    if c1 == 'H' && c2 == 'S' {
        Some(String::from_str("Honda"))
    } else
    if c1 == 'J' && c2 == 'K' {
        Some(String::from_str("Nissan Infiniti"))
    } else
    if c1 == 'J' && c2 == 'N' {
        Some(String::from_str("Nissan"))
    } else
    if c1 == 'K' && c2 == 'F' {
        Some(String::from_str("Opel"))
    } else
    if c1 == 'N' && c2 == 'E' {
        Some(String::from_str("Jeep"))
    } else
    if c1 == 'N' && c2 == 'T' {
        Some(String::from_str("Honda"))
    } else
    if c1 == 'U' && c2 == '9' {
        Some(String::from_str("Solaris Bus & Coach"))
    } else
    if c1 == 'U' && c2 == 'F' {
        Some(String::from_str("Fiat Auto Poland / FSM"))
    } else
    if c1 == 'U' && c2 == 'L' {
        Some(String::from_str("Daewoo Poland / FSO"))
    } else
    if c1 == 'U' && c2 == 'P' {
        Some(String::from_str("Daewoo Poland / FSO"))
    } else
    if c1 == 'U' && c2 == 'R' {
        Some(String::from_str("Land Rover"))
    } else {
        None
    }
}

pub open spec fn maker3_t(c1: char, c2: char) -> Option<Seq<char>> {
    if c1 == 'C' && c2 == 'C' {
        Some("Micro Compact Car AG (SMART 1998-1999)"@)
    } else
    if c1 == 'D' && c2 == 'M' {
        Some("QUANTYA Swiss Electric Movement"@)
    } else
    if c1 == 'K' && c2 == '9' {
        Some("SOR"@)
    } else
    if c1 == 'M' && c2 == '9' {
        Some("Škoda trolleybuses"@)
    } else
    if c1 == 'M' && c2 == 'A' {
        Some("Hyundai"@)
    } else
    if c1 == 'M' && c2 == 'B' {
        Some("Škoda"@)
    } else
    if c1 == 'M' && c2 == 'K' {
        Some("Karosa"@)
    } else
    if c1 == 'M' && c2 == 'P' {
        Some("Škoda trolleybuses"@)
    } else
    if c1 == 'M' && c2 == 'T' {
        Some("Tatra"@)
    } else
    if c1 == 'N' && c2 == '9' {
        Some("Karosa"@)
    } else
    if c1 == 'N' && c2 == 'B' {
        Some("Skoda"@)
    } else
    if c1 == 'R' && c2 == 'A' {
        Some("Ikarus Bus"@)
    } else
    if c1 == 'R' && c2 == 'U' {
        Some("Audi"@)
    } else
    if c1 == 'S' && c2 == 'E' {
        Some("Ikarus Egyedi Autobuszgyar"@)
    } else
    if c1 == 'S' && c2 == 'M' {
        Some("Suzuki"@)
    } else
    if c1 == 'Y' && c2 == 'B' {
        Some("Mitsubishi"@)
    } else {
        None
    }
}

fn maker3_t_lookup(c1: char, c2: char) -> (r: Option<String>)
    ensures
        opt_str_view(r) == maker3_t(c1, c2),
{
    if c1 == 'C' && c2 == 'C' {
        Some(String::from_str("Micro Compact Car AG (SMART 1998-1999)"))
    } else
    if c1 == 'D' && c2 == 'M' {
        Some(String::from_str("QUANTYA Swiss Electric Movement"))
    } else
    if c1 == 'K' && c2 == '9' {
        Some(String::from_str("SOR"))
    } else
    if c1 == 'M' && c2 == '9' {
        Some(String::from_str("Škoda trolleybuses"))
    } else
    if c1 == 'M' && c2 == 'A' {
        Some(String::from_str("Hyundai"))
    } else
    if c1 == 'M' && c2 == 'B' {
        Some(String::from_str("Škoda"))
    } else
    if c1 == 'M' && c2 == 'K' {
        Some(String::from_str("Karosa"))
    } else
    if c1 == 'M' && c2 == 'P' {
        Some(String::from_str("Škoda trolleybuses"))
    } else
    if c1 == 'M' && c2 == 'T' {
        Some(String::from_str("Tatra"))
    } else
    if c1 == 'N' && c2 == '9' {
        Some(String::from_str("Karosa"))
    } else
    if c1 == 'N' && c2 == 'B' {
        Some(String::from_str("Skoda"))
    } else
    if c1 == 'R' && c2 == 'A' {
        Some(String::from_str("Ikarus Bus"))
    } else
    if c1 == 'R' && c2 == 'U' {
        Some(String::from_str("Audi"))
    } else
    if c1 == 'S' && c2 == 'E' {
        Some(String::from_str("Ikarus Egyedi Autobuszgyar"))
    } else
    if c1 == 'S' && c2 == 'M' {
        Some(String::from_str("Suzuki"))
    } else
    if c1 == 'Y' && c2 == 'B' {
        Some(String::from_str("Mitsubishi"))
    } else {
        None
    }
}

pub open spec fn maker3_u(c1: char, c2: char) -> Option<Seq<char>> {
    if c1 == '5' && c2 == 'Y' {
        Some("Kia"@)
    } else
    if c1 == '6' && c2 == 'Y' {
        Some("Kia"@)
    } else
    if c1 == 'S' && c2 == 'Y' {
        Some("Kia"@)
    } else
    if c1 == 'U' && c2 == '1' {
        Some("Renault Dacia"@)
    } else {
        None
    }
}

fn maker3_u_lookup(c1: char, c2: char) -> (r: Option<String>)
    ensures
        opt_str_view(r) == maker3_u(c1, c2),
{
    if c1 == '5' && c2 == 'Y' {
        Some(String::from_str("Kia"))
    } else
    if c1 == '6' && c2 == 'Y' {
        Some(String::from_str("Kia"))
    } else
    if c1 == 'S' && c2 == 'Y' {
        Some(String::from_str("Kia"))
    } else
    if c1 == 'U' && c2 == '1' {
        Some(String::from_str("Renault Dacia"))
    } else {
        None
    }
}

pub open spec fn maker3_v(c1: char, c2: char) -> Option<Seq<char>> {
    if c1 == '0' && c2 == 'L' {
        Some("Opel"@)
    } else
    if c1 == 'A' && c2 == '0' {
        Some("ÖAF"@)
    } else
    if c1 == 'F' && c2 == '0' {
        Some("Ford"@)
    } else
    if c1 == 'F' && c2 == '1' {
        Some("Renault"@)
    } else
    if c1 == 'F' && c2 == '2' {
        Some("Renault"@)
    } else
    if c1 == 'F' && c2 == '3' {
        Some("Peugeot"@)
    } else
    if c1 == 'F' && c2 == '4' {
        Some("Talbot"@)
    } else
    if c1 == 'F' && c2 == '5' {
        Some("Iveco Unic SA"@)
    } else
    if c1 == 'F' && c2 == '6' {
        Some("Renault Trucks/Volvo"@)
    } else
    if c1 == 'F' && c2 == '7' {
        Some("Citroën"@)
    } else
    if c1 == 'F' && c2 == '8' {
        Some("Matra/Talbot/Simca"@)
    } else
    if c1 == 'F' && c2 == '9' {
        Some("Bugatti"@)
    } else
    if c1 == 'F' && c2 == 'B' {
        Some("Renault"@)
    } else
    if c1 == 'F' && c2 == 'E' {
        Some("IvecoBus"@)
    } else
    if c1 == 'F' && c2 == 'F' {
        Some("Peugeot"@)
    } else
    if c1 == 'F' && c2 == 'G' {
        Some("Citroen"@)
    } else
    if c1 == 'F' && c2 == 'J' {
        Some("Renault"@)
    } else
    if c1 == 'F' && c2 == 'Z' {
        Some("Citroen"@)
    } else
    if c1 == 'H' && c2 == '8' {
        Some("Microcar"@)
    } else
    if c1 == 'L' && c2 == 'G' {
        Some("Aixam"@)
    } else
    if c1 == 'L' && c2 == 'U' {
        Some("Scania"@)
    } else
    if c1 == 'N' && c2 == '1' {
        Some("Opel"@)
    } else
    if c1 == 'N' && c2 == 'E' {
        Some("Irisbus"@)
    } else
    if c1 == 'N' && c2 == 'K' {
        Some("Toyota"@)
    } else
    if c1 == 'N' && c2 == 'V' {
        Some("Renault"@)
    } else
    if c1 == 'S' && c2 == '1' {
        Some("Iveco"@)
    } else
    if c1 == 'S' && c2 == '3' {
        Some("Peugeot"@)
    } else
    if c1 == 'S' && c2 == '5' {
        Some("Renault"@)
    } else
    if c1 == 'S' && c2 == '6' {
        Some("Ford"@)
    } else
    if c1 == 'S' && c2 == '7' {
        Some("Citroen"@)
    } else
    if c1 == 'S' && c2 == '9' {
        Some("Carrocerias Ayats"@)
    } else
    if c1 == 'S' && c2 == 'A' {
        Some("Mercedes-Benz"@)
    } else
    if c1 == 'S' && c2 == 'E' {
        Some("Suzuki / Santana Motors"@)
    } else
    if c1 == 'S' && c2 == 'K' {
        Some("Nissan"@)
    } else
    if c1 == 'S' && c2 == 'S' {
        Some("SEAT"@)
    } else
    if c1 == 'S' && c2 == 'X' {
        Some("Opel"@)
    } else
    if c1 == 'S' && c2 == 'Y' {
        Some("Renault"@)
    } else
    if c1 == 'S' && c2 == 'Z' {
        Some("Seat"@)
    } else
    if c1 == 'V' && c2 == '9' {
        Some("Tauro Sport Auto"@)
    } else
    if c1 == 'W' && c2 == '1' {
        Some("Renault"@)
    } else
    if c1 == 'W' && c2 == '2' {
        Some("Volkswagen"@)
    } else
    if c1 == 'W' && c2 == 'A' {
        Some("Nissan"@)
    } else
    if c1 == 'W' && c2 == 'G' {
        Some("Volkswagen Spain"@)
    } else
    if c1 == 'W' && c2 == 'V' {
        Some("Volkswagen"@)
    } else
    if c1 == 'X' && c2 == '1' {
        Some("Zastava / Yugo"@)
    } else {
        None
    }
}

fn maker3_v_lookup(c1: char, c2: char) -> (r: Option<String>)
    ensures
        opt_str_view(r) == maker3_v(c1, c2),
{
    if c1 == '0' && c2 == 'L' {
        Some(String::from_str("Opel"))
    } else
    if c1 == 'A' && c2 == '0' {
        Some(String::from_str("ÖAF"))
    } else
    if c1 == 'F' && c2 == '0' {
        Some(String::from_str("Ford"))
    } else
    if c1 == 'F' && c2 == '1' {
        Some(String::from_str("Renault"))
    } else
    if c1 == 'F' && c2 == '2' {
        Some(String::from_str("Renault"))
    } else
    if c1 == 'F' && c2 == '3' {
        Some(String::from_str("Peugeot"))
    } else
    if c1 == 'F' && c2 == '4' {
        Some(String::from_str("Talbot"))
    } else
    if c1 == 'F' && c2 == '5' {
        Some(String::from_str("Iveco Unic SA"))
    } else
    if c1 == 'F' && c2 == '6' {
        Some(String::from_str("Renault Trucks/Volvo"))
    } else
    if c1 == 'F' && c2 == '7' {
        Some(String::from_str("Citroën"))
    } else
    if c1 == 'F' && c2 == '8' {
        Some(String::from_str("Matra/Talbot/Simca"))
    } else
    if c1 == 'F' && c2 == '9' {
        Some(String::from_str("Bugatti"))
    } else
    if c1 == 'F' && c2 == 'B' {
        Some(String::from_str("Renault"))
    } else
    if c1 == 'F' && c2 == 'E' {
        Some(String::from_str("IvecoBus"))
    } else
    if c1 == 'F' && c2 == 'F' {
        Some(String::from_str("Peugeot"))
    } else
    if c1 == 'F' && c2 == 'G' {
        Some(String::from_str("Citroen"))
    } else
    if c1 == 'F' && c2 == 'J' {
        Some(String::from_str("Renault"))
    } else
    if c1 == 'F' && c2 == 'Z' {
        Some(String::from_str("Citroen"))
    } else
    if c1 == 'H' && c2 == '8' {
        Some(String::from_str("Microcar"))
    } else
    if c1 == 'L' && c2 == 'G' {
        Some(String::from_str("Aixam"))
    } else
    if c1 == 'L' && c2 == 'U' {
        Some(String::from_str("Scania"))
    } else
    if c1 == 'N' && c2 == '1' {
        Some(String::from_str("Opel"))
    } else
    if c1 == 'N' && c2 == 'E' {
        Some(String::from_str("Irisbus"))
    } else
    if c1 == 'N' && c2 == 'K' {
        Some(String::from_str("Toyota"))
    } else
    if c1 == 'N' && c2 == 'V' {
        Some(String::from_str("Renault"))
    } else
    if c1 == 'S' && c2 == '1' {
        Some(String::from_str("Iveco"))
    } else
    if c1 == 'S' && c2 == '3' {
        Some(String::from_str("Peugeot"))
    } else
    if c1 == 'S' && c2 == '5' {
        Some(String::from_str("Renault"))
    } else
    if c1 == 'S' && c2 == '6' {
        Some(String::from_str("Ford"))
    } else
    if c1 == 'S' && c2 == '7' {
        Some(String::from_str("Citroen"))
    } else
    if c1 == 'S' && c2 == '9' {
        Some(String::from_str("Carrocerias Ayats"))
    } else
    if c1 == 'S' && c2 == 'A' {
        Some(String::from_str("Mercedes-Benz"))
    } else
    if c1 == 'S' && c2 == 'E' {
        Some(String::from_str("Suzuki / Santana Motors"))
    } else
    if c1 == 'S' && c2 == 'K' {
        Some(String::from_str("Nissan"))
    } else
    if c1 == 'S' && c2 == 'S' {
        Some(String::from_str("SEAT"))
    } else
    if c1 == 'S' && c2 == 'X' {
        Some(String::from_str("Opel"))
    } else
    if c1 == 'S' && c2 == 'Y' {
        Some(String::from_str("Renault"))
    } else
    if c1 == 'S' && c2 == 'Z' {
        Some(String::from_str("Seat"))
    } else
    if c1 == 'V' && c2 == '9' {
        Some(String::from_str("Tauro Sport Auto"))
    } else
    if c1 == 'W' && c2 == '1' {
        Some(String::from_str("Renault"))
    } else
    if c1 == 'W' && c2 == '2' {
        Some(String::from_str("Volkswagen"))
    } else
    if c1 == 'W' && c2 == 'A' {
        Some(String::from_str("Nissan"))
    } else
    if c1 == 'W' && c2 == 'G' {
        Some(String::from_str("Volkswagen Spain"))
    } else
    if c1 == 'W' && c2 == 'V' {
        Some(String::from_str("Volkswagen"))
    } else
    if c1 == 'X' && c2 == '1' {
        Some(String::from_str("Zastava / Yugo"))
    } else {
        None
    }
}

pub open spec fn maker3_w(c1: char, c2: char) -> Option<Seq<char>> {
    if c1 == '0' && c2 == '0' {
        Some("Opel"@)
    } else
    if c1 == '0' && c2 == '4' {
        Some("Buick"@)
    } else
    if c1 == '0' && c2 == '9' {
        Some("Ruf Automobile"@)
    } else
    if c1 == '0' && c2 == 'L' {
        Some("Opel/Vauxhall"@)
    } else
    if c1 == '0' && c2 == 'S' {
        Some("Opel Special Vehicles"@)
    } else
    if c1 == '0' && c2 == 'V' {
        Some("Opel"@)
    } else
    if c1 == 'A' && c2 == '1' {
        Some("Audi"@)
    } else
    if c1 == 'A' && c2 == 'G' {
        Some("Neoplan"@)
    } else
    if c1 == 'A' && c2 == 'P' {
        Some("Alpina"@)
    } else
    if c1 == 'A' && c2 == 'U' {
        Some("Audi"@)
    } else
    if c1 == 'A' && c2 == 'V' {
        Some("Audi"@)
    } else
    if c1 == 'A' && c2 == 'X' {
        Some("SsangYong"@)
    } else
    if c1 == 'B' && c2 == 'D' {
        Some("Mercedes-Benz"@)
    } else
    if c1 == 'B' && c2 == 'S' {
        Some("BMW M"@)
    } else
    if c1 == 'C' && c2 == 'D' {
        Some("Mercedes-Benz (Sprinter)"@)
    } else
    if c1 == 'D' && c2 == '3' {
        Some("Daimler AG (Sprinter)"@)
    } else
    if c1 == 'D' && c2 == '4' {
        Some("Daimler AG (Sprinter)"@)
    } else
    if c1 == 'D' && c2 == '8' {
        Some("Mercedes-Benz"@)
    } else
    if c1 == 'D' && c2 == 'A' {
        Some("Daimler AG (Sprinter)"@)
    } else
    if c1 == 'D' && c2 == 'B' {
        Some("Mercedes-Benz"@)
    } else
    if c1 == 'D' && c2 == 'C' {
        Some("DaimlerChrysler AG/Daimler AG"@)
    } else
    if c1 == 'D' && c2 == 'D' {
        Some("DaimlerChrysler AG/Daimler AG"@)
    } else
    if c1 == 'D' && c2 == 'F' {
        Some("Mercedes-Benz"@)
    } else
    if c1 == 'D' && c2 == 'P' {
        Some("Mercedes-Benz (Sprinter)"@)
    } else
    if c1 == 'D' && c2 == 'R' {
        Some("Mercedes-Benz (Sprinter)"@)
    } else
    if c1 == 'D' && c2 == 'Y' {
        Some("Mercedes-Benz (Sprinter)"@)
    } else
    if c1 == 'D' && c2 == 'Z' {
        Some("Mercedes-Benz (Sprinter)"@)
    } else
    if c1 == 'E' && c2 == '0' {
        Some("Ford"@)
    } else
    if c1 == 'E' && c2 == 'B' {
        Some("EvoBus"@)
    } else
    if c1 == 'F' && c2 == '0' {
        Some("Ford of Europe"@)
    } else
    if c1 == 'F' && c2 == '1' {
        Some("Renault"@)
    } else
    if c1 == 'F' && c2 == '3' {
        Some("Peugeot"@)
    } else
    if c1 == 'F' && c2 == '7' {
        Some("Citroen"@)
    } else
    if c1 == 'F' && c2 == 'D' {
        Some("Fliegl"@)
    } else
    if c1 == 'F' && c2 == 'O' {
        Some("Ford"@)
    } else
    if c1 == 'J' && c2 == 'M' {
        Some("Iveco"@)
    } else
    if c1 == 'J' && c2 == 'R' {
        Some("Irmscher"@)
    } else
    if c1 == 'K' && c2 == 'K' {
        Some("Karl Kässbohrer Fahrzeugwerke"@)
    } else
    if c1 == 'M' && c2 == 'A' {
        Some("MAN"@)
    } else
    if c1 == 'M' && c2 == 'B' {
        Some("Audi"@)
    } else
    if c1 == 'M' && c2 == 'E' {
        Some("Smart"@)
    } else
    if c1 == 'M' && c2 == 'W' {
        Some("Mini"@)
    } else
    if c1 == 'M' && c2 == 'X' {
        Some("DaimlerChrysler AG/Daimler AG"@)
    } else
    if c1 == 'N' && c2 == 'K' {
        Some("Toyota"@)
    } else
    if c1 == 'O' && c2 == 'L' {
        Some("Opel"@)
    } else
    if c1 == 'P' && c2 == '0' {
        Some("Porsche car"@)
    } else
    if c1 == 'P' && c2 == '1' {
        Some("Porsche SUV"@)
    } else
    if c1 == 'S' && c2 == '0' {
        Some("Ford"@)
    } else
    if c1 == 'S' && c2 == 'S' {
        Some("Seat"@)
    } else
    if c1 == 'U' && c2 == 'A' {
        Some("Quattro"@)
    } else
    if c1 == 'U' && c2 == 'W' {
        Some("Volkswagen"@)
    } else
    if c1 == 'V' && c2 == '0' {
        Some("Ford"@)
    } else
    if c1 == 'V' && c2 == '1' {
        Some("Volkswagen Commercial Vehicles"@)
    } else
    if c1 == 'V' && c2 == '2' {
        Some("Volkswagen Commercial Vehicles"@)
    } else
    if c1 == 'V' && c2 == '3' {
        Some("Volkswagen Trucks"@)
    } else
    if c1 == 'V' && c2 == 'Z' {
        Some("Volkswagen"@)
    } else
    if c1 == 'W' && c2 == 'D' {
        Some("Mercedes-Benz"@)
    } else
    if c1 == 'W' && c2 == 'W' {
        Some("Volkswagen"@)
    } else
    if c1 == 'Y' && c2 == 'G' {
        Some("Volkswagen"@)
    } else
    if c1 == 'Y' && c2 == 'W' {
        Some("Volkswagen"@)
    } else
    if c1 == 'Z' && c2 == 'W' {
        Some("Volkswagen"@)
    } else {
        None
    }
}

fn maker3_w_lookup(c1: char, c2: char) -> (r: Option<String>)
    ensures
        opt_str_view(r) == maker3_w(c1, c2),
{
    if c1 == '0' && c2 == '0' {
        Some(String::from_str("Opel"))
    } else
    if c1 == '0' && c2 == '4' {
        Some(String::from_str("Buick"))
    } else
    if c1 == '0' && c2 == '9' {
        Some(String::from_str("Ruf Automobile"))
    } else
    if c1 == '0' && c2 == 'L' {
        Some(String::from_str("Opel/Vauxhall"))
    } else
    if c1 == '0' && c2 == 'S' {
        Some(String::from_str("Opel Special Vehicles"))
    } else
    if c1 == '0' && c2 == 'V' {
        Some(String::from_str("Opel"))
    } else
    if c1 == 'A' && c2 == '1' {
        Some(String::from_str("Audi"))
    } else
    if c1 == 'A' && c2 == 'G' {
        Some(String::from_str("Neoplan"))
    } else
    if c1 == 'A' && c2 == 'P' {
        Some(String::from_str("Alpina"))
    } else
    if c1 == 'A' && c2 == 'U' {
        Some(String::from_str("Audi"))
    } else
    if c1 == 'A' && c2 == 'V' {
        Some(String::from_str("Audi"))
    } else
    if c1 == 'A' && c2 == 'X' {
        Some(String::from_str("SsangYong"))
    } else
    if c1 == 'B' && c2 == 'D' {
        Some(String::from_str("Mercedes-Benz"))
    } else
    if c1 == 'B' && c2 == 'S' {
        Some(String::from_str("BMW M"))
    } else
    if c1 == 'C' && c2 == 'D' {
        Some(String::from_str("Mercedes-Benz (Sprinter)"))
    } else
    if c1 == 'D' && c2 == '3' {
        Some(String::from_str("Daimler AG (Sprinter)"))
    } else
    if c1 == 'D' && c2 == '4' {
        Some(String::from_str("Daimler AG (Sprinter)"))
    } else
    if c1 == 'D' && c2 == '8' {
        Some(String::from_str("Mercedes-Benz"))
    } else
    if c1 == 'D' && c2 == 'A' {
        Some(String::from_str("Daimler AG (Sprinter)"))
    } else
    if c1 == 'D' && c2 == 'B' {
        Some(String::from_str("Mercedes-Benz"))
    } else
    if c1 == 'D' && c2 == 'C' {
        Some(String::from_str("DaimlerChrysler AG/Daimler AG"))
    } else
    if c1 == 'D' && c2 == 'D' {
        Some(String::from_str("DaimlerChrysler AG/Daimler AG"))
    } else
    if c1 == 'D' && c2 == 'F' {
        Some(String::from_str("Mercedes-Benz"))
    } else
    if c1 == 'D' && c2 == 'P' {
        Some(String::from_str("Mercedes-Benz (Sprinter)"))
    } else
    if c1 == 'D' && c2 == 'R' {
        Some(String::from_str("Mercedes-Benz (Sprinter)"))
    } else
    if c1 == 'D' && c2 == 'Y' {
        Some(String::from_str("Mercedes-Benz (Sprinter)"))
    } else
    if c1 == 'D' && c2 == 'Z' {
        Some(String::from_str("Mercedes-Benz (Sprinter)"))
    } else
    if c1 == 'E' && c2 == '0' {
        Some(String::from_str("Ford"))
    } else
    if c1 == 'E' && c2 == 'B' {
        Some(String::from_str("EvoBus"))
    } else
    if c1 == 'F' && c2 == '0' {
        Some(String::from_str("Ford of Europe"))
    } else
    if c1 == 'F' && c2 == '1' {
        Some(String::from_str("Renault"))
    } else
    if c1 == 'F' && c2 == '3' {
        Some(String::from_str("Peugeot"))
    } else
    if c1 == 'F' && c2 == '7' {
        Some(String::from_str("Citroen"))
    } else
    if c1 == 'F' && c2 == 'D' {
        Some(String::from_str("Fliegl"))
    } else
    if c1 == 'F' && c2 == 'O' {
        Some(String::from_str("Ford"))
    } else
    if c1 == 'J' && c2 == 'M' {
        Some(String::from_str("Iveco"))
    } else
    if c1 == 'J' && c2 == 'R' {
        Some(String::from_str("Irmscher"))
    } else
    if c1 == 'K' && c2 == 'K' {
        Some(String::from_str("Karl Kässbohrer Fahrzeugwerke"))
    } else
    if c1 == 'M' && c2 == 'A' {
        Some(String::from_str("MAN"))
    } else
    if c1 == 'M' && c2 == 'B' {
        Some(String::from_str("Audi"))
    } else
    if c1 == 'M' && c2 == 'E' {
        Some(String::from_str("Smart"))
    } else
    if c1 == 'M' && c2 == 'W' {
        Some(String::from_str("Mini"))
    } else
    if c1 == 'M' && c2 == 'X' {
        Some(String::from_str("DaimlerChrysler AG/Daimler AG"))
    } else
    if c1 == 'N' && c2 == 'K' {
        Some(String::from_str("Toyota"))
    } else
    if c1 == 'O' && c2 == 'L' {
        Some(String::from_str("Opel"))
    } else
    if c1 == 'P' && c2 == '0' {
        Some(String::from_str("Porsche car"))
    } else
    if c1 == 'P' && c2 == '1' {
        Some(String::from_str("Porsche SUV"))
    } else
    if c1 == 'S' && c2 == '0' {
        Some(String::from_str("Ford"))
    } else
    if c1 == 'S' && c2 == 'S' {
        Some(String::from_str("Seat"))
    } else
    if c1 == 'U' && c2 == 'A' {
        Some(String::from_str("Quattro"))
    } else
    if c1 == 'U' && c2 == 'W' {
        Some(String::from_str("Volkswagen"))
    } else
    if c1 == 'V' && c2 == '0' {
        Some(String::from_str("Ford"))
    } else
    if c1 == 'V' && c2 == '1' {
        Some(String::from_str("Volkswagen Commercial Vehicles"))
    } else
    if c1 == 'V' && c2 == '2' {
        Some(String::from_str("Volkswagen Commercial Vehicles"))
    } else
    if c1 == 'V' && c2 == '3' {
        Some(String::from_str("Volkswagen Trucks"))
    } else
    if c1 == 'V' && c2 == 'Z' {
        Some(String::from_str("Volkswagen"))
    } else
    if c1 == 'W' && c2 == 'D' {
        Some(String::from_str("Mercedes-Benz"))
    } else
    if c1 == 'W' && c2 == 'W' {
        Some(String::from_str("Volkswagen"))
    } else
    if c1 == 'Y' && c2 == 'G' {
        Some(String::from_str("Volkswagen"))
    } else
    if c1 == 'Y' && c2 == 'W' {
        Some(String::from_str("Volkswagen"))
    } else
    if c1 == 'Z' && c2 == 'W' {
        Some(String::from_str("Volkswagen"))
    } else {
        None
    }
}

pub open spec fn maker3_x(c1: char, c2: char) -> Option<Seq<char>> {
    if c1 == '7' && c2 == 'L' {
        Some("Renault"@)
    } else
    if c1 == '9' && c2 == '6' {
        Some("Mercedes-Benz"@)
    } else
    if c1 == 'L' && c2 == '9' {
        Some("Spyker"@)
    } else
    if c1 == 'L' && c2 == 'B' {
        Some("Volvo"@)
    } else
    if c1 == 'L' && c2 == 'R' {
        Some("DAF Trucks"@)
    } else
    if c1 == 'M' && c2 == 'C' {
        Some("Mitsubishi (NedCar)"@)
    } else
    if c1 == 'N' && c2 == 'C' {
        Some("Mitsubishi"@)
    } else
    if c1 == 'T' && c2 == 'A' {
        Some("AvtoVAZ"@)
    } else
    if c1 == 'U' && c2 == 'F' {
        Some("Opel"@)
    } else
    if c1 == 'W' && c2 == 'F' {
        Some("Opel"@)
    } else {
        None
    }
}

fn maker3_x_lookup(c1: char, c2: char) -> (r: Option<String>)
    ensures
        opt_str_view(r) == maker3_x(c1, c2),
{
    if c1 == '7' && c2 == 'L' {
        Some(String::from_str("Renault"))
    } else
    if c1 == '9' && c2 == '6' {
        Some(String::from_str("Mercedes-Benz"))
    } else
    if c1 == 'L' && c2 == '9' {
        Some(String::from_str("Spyker"))
    } else
    if c1 == 'L' && c2 == 'B' {
        Some(String::from_str("Volvo"))
    } else
    if c1 == 'L' && c2 == 'R' {
        Some(String::from_str("DAF Trucks"))
    } else
    if c1 == 'M' && c2 == 'C' {
        Some(String::from_str("Mitsubishi (NedCar)"))
    } else
    if c1 == 'N' && c2 == 'C' {
        Some(String::from_str("Mitsubishi"))
    } else
    if c1 == 'T' && c2 == 'A' {
        Some(String::from_str("AvtoVAZ"))
    } else
    if c1 == 'U' && c2 == 'F' {
        Some(String::from_str("Opel"))
    } else
    if c1 == 'W' && c2 == 'F' {
        Some(String::from_str("Opel"))
    } else {
        None
    }
}

pub open spec fn maker3_y(c1: char, c2: char) -> Option<Seq<char>> {
    if c1 == '6' && c2 == 'D' {
        Some("Opel"@)
    } else
    if c1 == 'A' && c2 == 'R' {
        Some("Toyota"@)
    } else
    if c1 == 'C' && c2 == 'M' {
        Some("Mazda"@)
    } else
    if c1 == 'H' && c2 == '4' {
        Some("Fisker"@)
    } else
    if c1 == 'K' && c2 == '1' {
        Some("Saab"@)
    } else
    if c1 == 'M' && c2 == 'B' {
        Some("Skoda"@)
    } else
    if c1 == 'S' && c2 == '2' {
        Some("Scania, Södertälje"@)
    } else
    if c1 == 'S' && c2 == '3' {
        Some("Saab"@)
    } else
    if c1 == 'S' && c2 == '4' {
        Some("Scania, Katrineholm"@)
    } else
    if c1 == 'T' && c2 == 'N' {
        Some("Saab NEVS"@)
    } else
    if c1 == 'V' && c2 == '1' {
        Some("Volvo Cars"@)
    } else
    if c1 == 'V' && c2 == '2' {
        Some("Volvo Trucks"@)
    } else
    if c1 == 'V' && c2 == '3' {
        Some("Volvo Buses"@)
    } else
    if c1 == 'V' && c2 == '4' {
        Some("Volvo Cars"@)
    } else {
        None
    }
}

fn maker3_y_lookup(c1: char, c2: char) -> (r: Option<String>)
    ensures
        opt_str_view(r) == maker3_y(c1, c2),
{
    if c1 == '6' && c2 == 'D' {
        Some(String::from_str("Opel"))
    } else
    if c1 == 'A' && c2 == 'R' {
        Some(String::from_str("Toyota"))
    } else
    if c1 == 'C' && c2 == 'M' {
        Some(String::from_str("Mazda"))
    } else
    if c1 == 'H' && c2 == '4' {
        Some(String::from_str("Fisker"))
    } else
    if c1 == 'K' && c2 == '1' {
        Some(String::from_str("Saab"))
    } else
    if c1 == 'M' && c2 == 'B' {
        Some(String::from_str("Skoda"))
    } else
    if c1 == 'S' && c2 == '2' {
        Some(String::from_str("Scania, Södertälje"))
    } else
    if c1 == 'S' && c2 == '3' {
        Some(String::from_str("Saab"))
    } else
    if c1 == 'S' && c2 == '4' {
        Some(String::from_str("Scania, Katrineholm"))
    } else
    if c1 == 'T' && c2 == 'N' {
        Some(String::from_str("Saab NEVS"))
    } else
    if c1 == 'V' && c2 == '1' {
        Some(String::from_str("Volvo Cars"))
    } else
    if c1 == 'V' && c2 == '2' {
        Some(String::from_str("Volvo Trucks"))
    } else
    if c1 == 'V' && c2 == '3' {
        Some(String::from_str("Volvo Buses"))
    } else
    if c1 == 'V' && c2 == '4' {
        Some(String::from_str("Volvo Cars"))
    } else {
        None
    }
}

pub open spec fn maker3_z(c1: char, c2: char) -> Option<Seq<char>> {
    if c1 == '1' && c2 == '2' {
        Some("Opel"@)
    } else
    if c1 == '3' && c2 == 'B' {
        Some("Chevrolet"@)
    } else
    if c1 == 'A' && c2 == '9' {
        Some("Bugatti"@)
    } else
    if c1 == 'A' && c2 == 'C' {
        Some("FCA"@)
    } else
    if c1 == 'A' && c2 == 'F' {
        Some("Fiat"@)
    } else
    if c1 == 'A' && c2 == 'M' {
        Some("Maserati"@)
    } else
    if c1 == 'A' && c2 == 'P' {
        Some("Piaggio/Vespa/Gilera"@)
    } else
    if c1 == 'A' && c2 == 'R' {
        Some("Alfa Romeo"@)
    } else
    if c1 == 'C' && c2 == 'F' {
        Some("Iveco"@)
    } else
    if c1 == 'C' && c2 == 'G' {
        Some("Cagiva SpA"@)
    } else
    if c1 == 'D' && c2 == '4' {
        Some("Aprilia"@)
    } else
    if c1 == 'D' && c2 == 'F' {
        Some("Ferrari Dino"@)
    } else
    if c1 == 'D' && c2 == 'M' {
        Some("Ducati Motor Holdings SpA"@)
    } else
    if c1 == 'F' && c2 == 'A' {
        Some("Fiat Automobiles"@)
    } else
    if c1 == 'F' && c2 == 'B' {
        Some("Fiat"@)
    } else
    if c1 == 'F' && c2 == 'C' {
        Some("Fiat V.I."@)
    } else
    if c1 == 'F' && c2 == 'F' {
        Some("Ferrari"@)
    } else
    if c1 == 'G' && c2 == 'A' {
        Some("IvecoBus"@)
    } else
    if c1 == 'H' && c2 == 'W' {
        Some("Lamborghini"@)
    } else
    if c1 == 'L' && c2 == 'A' {
        Some("Lancia"@)
    } else
    if c1 == 'O' && c2 == 'M' {
        Some("OM"@)
    } else
    if c1 == 'S' && c2 == 'A' {
        Some("Fiat"@)
    } else {
        None
    }
}

fn maker3_z_lookup(c1: char, c2: char) -> (r: Option<String>)
    ensures
        opt_str_view(r) == maker3_z(c1, c2),
{
    if c1 == '1' && c2 == '2' {
        Some(String::from_str("Opel"))
    } else
    if c1 == '3' && c2 == 'B' {
        Some(String::from_str("Chevrolet"))
    } else
    if c1 == 'A' && c2 == '9' {
        Some(String::from_str("Bugatti"))
    } else
    if c1 == 'A' && c2 == 'C' {
        Some(String::from_str("FCA"))
    } else
    if c1 == 'A' && c2 == 'F' {
        Some(String::from_str("Fiat"))
    } else
    if c1 == 'A' && c2 == 'M' {
        Some(String::from_str("Maserati"))
    } else
    if c1 == 'A' && c2 == 'P' {
        Some(String::from_str("Piaggio/Vespa/Gilera"))
    } else
    if c1 == 'A' && c2 == 'R' {
        Some(String::from_str("Alfa Romeo"))
    } else
    if c1 == 'C' && c2 == 'F' {
        Some(String::from_str("Iveco"))
    } else
    if c1 == 'C' && c2 == 'G' {
        Some(String::from_str("Cagiva SpA"))
    } else
    if c1 == 'D' && c2 == '4' {
        Some(String::from_str("Aprilia"))
    } else
    if c1 == 'D' && c2 == 'F' {
        Some(String::from_str("Ferrari Dino"))
    } else
    if c1 == 'D' && c2 == 'M' {
        Some(String::from_str("Ducati Motor Holdings SpA"))
    } else
    if c1 == 'F' && c2 == 'A' {
        Some(String::from_str("Fiat Automobiles"))
    } else
    if c1 == 'F' && c2 == 'B' {
        Some(String::from_str("Fiat"))
    } else
    if c1 == 'F' && c2 == 'C' {
        Some(String::from_str("Fiat V.I."))
    } else
    if c1 == 'F' && c2 == 'F' {
        Some(String::from_str("Ferrari"))
    } else
    if c1 == 'G' && c2 == 'A' {
        Some(String::from_str("IvecoBus"))
    } else
    if c1 == 'H' && c2 == 'W' {
        Some(String::from_str("Lamborghini"))
    } else
    if c1 == 'L' && c2 == 'A' {
        Some(String::from_str("Lancia"))
    } else
    if c1 == 'O' && c2 == 'M' {
        Some(String::from_str("OM"))
    } else
    if c1 == 'S' && c2 == 'A' {
        Some(String::from_str("Fiat"))
    } else {
        None
    }
}

pub open spec fn maker3_d1(c1: char, c2: char) -> Option<Seq<char>> {
    if c1 == '1' && c2 == '2' {
        Some("Volkswagen"@)
    } else
    if c1 == '1' && c2 == '5' {
        Some("Mercedes-Benz"@)
    } else
    if c1 == '1' && c2 == '7' {
        Some("Volkswagen"@)
    } else
    if c1 == '1' && c2 == '9' {
        Some("Replica/Kit Makes"@)
    } else
    if c1 == '2' && c2 == '3' {
        Some("Mercedes-Benz"@)
    } else
    if c1 == '2' && c2 == '4' {
        Some("Chevrolet"@)
    } else
    if c1 == '7' && c2 == '8' {
        Some("Jaguar"@)
    } else
    if c1 == '9' && c2 == 'X' {
        Some("Honda"@)
    } else
    if c1 == 'A' && c2 == '8' {
        Some("Chrysler"@)
    } else
    if c1 == 'F' && c2 == '9' {
        Some("FWD Corp."@)
    } else
    if c1 == 'F' && c2 == 'U' {
        Some("Freightliner"@)
    } else
    if c1 == 'F' && c2 == 'V' {
        Some("Freightliner"@)
    } else
    if c1 == 'G' && c2 == '1' {
        Some("Chevrolet"@)
    } else
    if c1 == 'G' && c2 == '2' {
        Some("Pontiac"@)
    } else
    if c1 == 'G' && c2 == '3' {
        Some("Oldsmobile"@)
    } else
    if c1 == 'G' && c2 == '4' {
        Some("Buick"@)
    } else
    if c1 == 'G' && c2 == '6' {
        Some("Cadillac"@)
    } else
    if c1 == 'G' && c2 == '8' {
        Some("Saturn"@)
    } else
    if c1 == 'G' && c2 == '9' {
        Some("Google"@)
    } else
    if c1 == 'G' && c2 == 'B' {
        Some("Chevrolet USA"@)
    } else
    if c1 == 'G' && c2 == 'C' {
        Some("Chevrolet"@)
    } else
    if c1 == 'G' && c2 == 'M' {
        Some("Pontiac"@)
    } else
    if c1 == 'G' && c2 == 'N' {
        Some("Chevrolet USA"@)
    } else
    if c1 == 'G' && c2 == 'T' {
        Some("GMC Truck"@)
    } else
    if c1 == 'G' && c2 == 'Y' {
        Some("Cadillac"@)
    } else
    if c1 == 'H' && c2 == 'D' {
        Some("Harley-Davidson"@)
    } else
    if c1 == 'M' && c2 == '1' {
        Some("Mack Truck"@)
    } else
    if c1 == 'M' && c2 == '2' {
        Some("Mack Truck"@)
    } else
    if c1 == 'M' && c2 == '3' {
        Some("Mack Truck"@)
    } else
    if c1 == 'M' && c2 == '4' {
        Some("Mack Truck"@)
    } else
    if c1 == 'M' && c2 == '9' {
        Some("Mynatt Truck & Equipment"@)
    } else
    if c1 == 'M' && c2 == 'E' {
        Some("Mercury"@)
    } else
    if c1 == 'N' && c2 == 'X' {
        Some("NUMMI"@)
    } else
    if c1 == 'P' && c2 == '3' {
        Some("Plymouth"@)
    } else
    if c1 == 'R' && c2 == '9' {
        Some("Roadrunner Hay Squeeze"@)
    } else
    if c1 == 'V' && c2 == '1' {
        Some("Volkswagen USA (Commercials)"@)
    } else
    if c1 == 'V' && c2 == 'W' {
        Some("Volkswagen"@)
    } else
    if c1 == 'X' && c2 == 'K' {
        Some("Kenworth"@)
    } else
    if c1 == 'X' && c2 == 'P' {
        Some("Peterbilt"@)
    } else
    if c1 == 'Y' && c2 == 'V' {
        Some("Mazda"@)
    } else
    if c1 == 'Z' && c2 == '7' {
        Some("Mitsubishi"@)
    } else
    if c1 == 'Z' && c2 == 'V' {
        Some("Auto Alliance International"@)
    } else {
        None
    }
}

fn maker3_d1_lookup(c1: char, c2: char) -> (r: Option<String>)
    ensures
        opt_str_view(r) == maker3_d1(c1, c2),
{
    if c1 == '1' && c2 == '2' {
        Some(String::from_str("Volkswagen"))
    } else
    if c1 == '1' && c2 == '5' {
        Some(String::from_str("Mercedes-Benz"))
    } else
    if c1 == '1' && c2 == '7' {
        Some(String::from_str("Volkswagen"))
    } else
    if c1 == '1' && c2 == '9' {
        Some(String::from_str("Replica/Kit Makes"))
    } else
    if c1 == '2' && c2 == '3' {
        Some(String::from_str("Mercedes-Benz"))
    } else
    if c1 == '2' && c2 == '4' {
        Some(String::from_str("Chevrolet"))
    } else
    if c1 == '7' && c2 == '8' {
        Some(String::from_str("Jaguar"))
    } else
    if c1 == '9' && c2 == 'X' {
        Some(String::from_str("Honda"))
    } else
    if c1 == 'A' && c2 == '8' {
        Some(String::from_str("Chrysler"))
    } else
    if c1 == 'F' && c2 == '9' {
        Some(String::from_str("FWD Corp."))
    } else
    if c1 == 'F' && c2 == 'U' {
        Some(String::from_str("Freightliner"))
    } else
    if c1 == 'F' && c2 == 'V' {
        Some(String::from_str("Freightliner"))
    } else
    if c1 == 'G' && c2 == '1' {
        Some(String::from_str("Chevrolet"))
    } else
    if c1 == 'G' && c2 == '2' {
        Some(String::from_str("Pontiac"))
    } else
    if c1 == 'G' && c2 == '3' {
        Some(String::from_str("Oldsmobile"))
    } else
    if c1 == 'G' && c2 == '4' {
        Some(String::from_str("Buick"))
    } else
    if c1 == 'G' && c2 == '6' {
        Some(String::from_str("Cadillac"))
    } else
    if c1 == 'G' && c2 == '8' {
        Some(String::from_str("Saturn"))
    } else
    if c1 == 'G' && c2 == '9' {
        Some(String::from_str("Google"))
    } else
    if c1 == 'G' && c2 == 'B' {
        Some(String::from_str("Chevrolet USA"))
    } else
    if c1 == 'G' && c2 == 'C' {
        Some(String::from_str("Chevrolet"))
    } else
    if c1 == 'G' && c2 == 'M' {
        Some(String::from_str("Pontiac"))
    } else
    if c1 == 'G' && c2 == 'N' {
        Some(String::from_str("Chevrolet USA"))
    } else
    if c1 == 'G' && c2 == 'T' {
        Some(String::from_str("GMC Truck"))
    } else
    if c1 == 'G' && c2 == 'Y' {
        Some(String::from_str("Cadillac"))
    } else
    if c1 == 'H' && c2 == 'D' {
        Some(String::from_str("Harley-Davidson"))
    } else
    if c1 == 'M' && c2 == '1' {
        Some(String::from_str("Mack Truck"))
    } else
    if c1 == 'M' && c2 == '2' {
        Some(String::from_str("Mack Truck"))
    } else
    if c1 == 'M' && c2 == '3' {
        Some(String::from_str("Mack Truck"))
    } else
    if c1 == 'M' && c2 == '4' {
        Some(String::from_str("Mack Truck"))
    } else
    if c1 == 'M' && c2 == '9' {
        Some(String::from_str("Mynatt Truck & Equipment"))
    } else
    if c1 == 'M' && c2 == 'E' {
        Some(String::from_str("Mercury"))
    } else
    if c1 == 'N' && c2 == 'X' {
        Some(String::from_str("NUMMI"))
    } else
    if c1 == 'P' && c2 == '3' {
        Some(String::from_str("Plymouth"))
    } else
    if c1 == 'R' && c2 == '9' {
        Some(String::from_str("Roadrunner Hay Squeeze"))
    } else
    if c1 == 'V' && c2 == '1' {
        Some(String::from_str("Volkswagen USA (Commercials)"))
    } else
    if c1 == 'V' && c2 == 'W' {
        Some(String::from_str("Volkswagen"))
    } else
    if c1 == 'X' && c2 == 'K' {
        Some(String::from_str("Kenworth"))
    } else
    if c1 == 'X' && c2 == 'P' {
        Some(String::from_str("Peterbilt"))
    } else
    if c1 == 'Y' && c2 == 'V' {
        Some(String::from_str("Mazda"))
    } else
    if c1 == 'Z' && c2 == '7' {
        Some(String::from_str("Mitsubishi"))
    } else
    if c1 == 'Z' && c2 == 'V' {
        Some(String::from_str("Auto Alliance International"))
    } else {
        None
    }
}

pub open spec fn maker3_d2(c1: char, c2: char) -> Option<Seq<char>> {
    if c1 == '1' && c2 == '0' {
        Some("Ford"@)
    } else
    if c1 == 'A' && c2 == '4' {
        Some("Chrysler Canada"@)
    } else
    if c1 == 'A' && c2 == '8' {
        Some("Chrysler Canada"@)
    } else
    if c1 == 'B' && c2 == '3' {
        Some("Dodge Canada"@)
    } else
    if c1 == 'B' && c2 == '4' {
        Some("Dodge"@)
    } else
    if c1 == 'C' && c2 == '3' {
        Some("Chrysler"@)
    } else
    if c1 == 'C' && c2 == '4' {
        Some("Chrysler Canada"@)
    } else
    if c1 == 'C' && c2 == '8' {
        Some("Chrysler"@)
    } else
    if c1 == 'C' && c2 == 'N' {
        Some("CAMI"@)
    } else
    if c1 == 'C' && c2 == 'T' {
        Some("General Motors"@)
    } else
    if c1 == 'D' && c2 == '3' {
        Some("Dodge"@)
    } else
    if c1 == 'D' && c2 == '4' {
        Some("Dodge Canada"@)
    } else
    if c1 == 'D' && c2 == '8' {
        Some("Dodge Canada"@)
    } else
    if c1 == 'D' && c2 == 'G' {
        Some("Ontario Drive & Gear"@)
    } else
    if c1 == 'F' && c2 == 'T' {
        Some("Ford Motor Company"@)
    } else
    if c1 == 'F' && c2 == 'U' {
        Some("Freightliner"@)
    } else
    if c1 == 'F' && c2 == 'V' {
        Some("Freightliner"@)
    } else
    if c1 == 'F' && c2 == 'Z' {
        Some("Sterling"@)
    } else
    if c1 == 'G' && c2 == '1' {
        Some("Chevrolet"@)
    } else
    if c1 == 'G' && c2 == '2' {
        Some("Pontiac"@)
    } else
    if c1 == 'G' && c2 == '3' {
        Some("Oldsmobile"@)
    } else
    if c1 == 'G' && c2 == '4' {
        Some("Buick"@)
    } else
    if c1 == 'G' && c2 == '6' {
        Some("Cadillac"@)
    } else
    if c1 == 'G' && c2 == '9' {
        Some("Gnome Homes"@)
    } else
    if c1 == 'G' && c2 == 'C' {
        Some("Chevrolet Canada"@)
    } else
    if c1 == 'G' && c2 == 'N' {
        Some("Chevrolet Canada"@)
    } else
    if c1 == 'H' && c2 == 'H' {
        Some("Acura"@)
    } else
    if c1 == 'H' && c2 == 'M' {
        Some("Hyundai"@)
    } else
    if c1 == 'H' && c2 == 'N' {
        Some("Acura"@)
    } else
    if c1 == 'N' && c2 == 'V' {
        Some("Nova Bus"@)
    } else
    if c1 == 'P' && c2 == '3' {
        Some("Plymouth"@)
    } else
    if c1 == 'S' && c2 == '2' {
        Some("Suzuki"@)
    } else
    if c1 == 'S' && c2 == '3' {
        Some("Suzuki Canada"@)
    } else
    if c1 == 'T' && c2 == '2' {
        Some("Lexus Canada"@)
    } else
    if c1 == 'V' && c2 == '4' {
        Some("Volkswagen"@)
    } else
    if c1 == 'V' && c2 == '8' {
        Some("Volkswagen"@)
    } else {
        None
    }
}

fn maker3_d2_lookup(c1: char, c2: char) -> (r: Option<String>)
    ensures
        opt_str_view(r) == maker3_d2(c1, c2),
{
    if c1 == '1' && c2 == '0' {
        Some(String::from_str("Ford"))
    } else
    if c1 == 'A' && c2 == '4' {
        Some(String::from_str("Chrysler Canada"))
    } else
    if c1 == 'A' && c2 == '8' {
        Some(String::from_str("Chrysler Canada"))
    } else
    if c1 == 'B' && c2 == '3' {
        Some(String::from_str("Dodge Canada"))
    } else
    if c1 == 'B' && c2 == '4' {
        Some(String::from_str("Dodge"))
    } else
    if c1 == 'C' && c2 == '3' {
        Some(String::from_str("Chrysler"))
    } else
    if c1 == 'C' && c2 == '4' {
        Some(String::from_str("Chrysler Canada"))
    } else
    if c1 == 'C' && c2 == '8' {
        Some(String::from_str("Chrysler"))
    } else
    if c1 == 'C' && c2 == 'N' {
        Some(String::from_str("CAMI"))
    } else
    if c1 == 'C' && c2 == 'T' {
        Some(String::from_str("General Motors"))
    } else
    if c1 == 'D' && c2 == '3' {
        Some(String::from_str("Dodge"))
    } else
    if c1 == 'D' && c2 == '4' {
        Some(String::from_str("Dodge Canada"))
    } else
    if c1 == 'D' && c2 == '8' {
        Some(String::from_str("Dodge Canada"))
    } else
    if c1 == 'D' && c2 == 'G' {
        Some(String::from_str("Ontario Drive & Gear"))
    } else
    if c1 == 'F' && c2 == 'T' {
        Some(String::from_str("Ford Motor Company"))
    } else
    if c1 == 'F' && c2 == 'U' {
        Some(String::from_str("Freightliner"))
    } else
    if c1 == 'F' && c2 == 'V' {
        Some(String::from_str("Freightliner"))
    } else
    if c1 == 'F' && c2 == 'Z' {
        Some(String::from_str("Sterling"))
    } else
    if c1 == 'G' && c2 == '1' {
        Some(String::from_str("Chevrolet"))
    } else
    if c1 == 'G' && c2 == '2' {
        Some(String::from_str("Pontiac"))
    } else
    if c1 == 'G' && c2 == '3' {
        Some(String::from_str("Oldsmobile"))
    } else
    if c1 == 'G' && c2 == '4' {
        Some(String::from_str("Buick"))
    } else
    if c1 == 'G' && c2 == '6' {
        Some(String::from_str("Cadillac"))
    } else
    if c1 == 'G' && c2 == '9' {
        Some(String::from_str("Gnome Homes"))
    } else
    if c1 == 'G' && c2 == 'C' {
        Some(String::from_str("Chevrolet Canada"))
    } else
    if c1 == 'G' && c2 == 'N' {
        Some(String::from_str("Chevrolet Canada"))
    } else
    if c1 == 'H' && c2 == 'H' {
        Some(String::from_str("Acura"))
    } else
    if c1 == 'H' && c2 == 'M' {
        Some(String::from_str("Hyundai"))
    } else
    if c1 == 'H' && c2 == 'N' {
        Some(String::from_str("Acura"))
    } else
    if c1 == 'N' && c2 == 'V' {
        Some(String::from_str("Nova Bus"))
    } else
    if c1 == 'P' && c2 == '3' {
        Some(String::from_str("Plymouth"))
    } else
    if c1 == 'S' && c2 == '2' {
        Some(String::from_str("Suzuki"))
    } else
    if c1 == 'S' && c2 == '3' {
        Some(String::from_str("Suzuki Canada"))
    } else
    if c1 == 'T' && c2 == '2' {
        Some(String::from_str("Lexus Canada"))
    } else
    if c1 == 'V' && c2 == '4' {
        Some(String::from_str("Volkswagen"))
    } else
    if c1 == 'V' && c2 == '8' {
        Some(String::from_str("Volkswagen"))
    } else {
        None
    }
}

pub open spec fn maker3_d3(c1: char, c2: char) -> Option<Seq<char>> {
    if c1 == '0' && c2 == '9' {
        Some("Chevrolet"@)
    } else
    if c1 == 'B' && c2 == '7' {
        Some("Dodge Mexico"@)
    } else
    if c1 == 'C' && c2 == '3' {
        Some("Fiat"@)
    } else
    if c1 == 'C' && c2 == '4' {
        Some("Dodge Mexico"@)
    } else
    if c1 == 'C' && c2 == 'Z' {
        Some("Honda Mexico"@)
    } else
    if c1 == 'D' && c2 == '4' {
        Some("Dodge"@)
    } else
    if c1 == 'G' && c2 == 'C' {
        Some("Chevrolet Mexico"@)
    } else
    if c1 == 'G' && c2 == 'N' {
        Some("Chevrolet Mexico"@)
    } else
    if c1 == 'G' && c2 == 'Y' {
        Some("Cadillac"@)
    } else
    if c1 == 'K' && c2 == 'P' {
        Some("Kia"@)
    } else
    if c1 == 'L' && c2 == 'N' {
        Some("Lincoln"@)
    } else
    if c1 == 'M' && c2 == 'D' {
        Some("Mazda"@)
    } else
    if c1 == 'M' && c2 == 'E' {
        Some("Mercury Mexico"@)
    } else
    if c1 == 'M' && c2 == 'Y' {
        Some("Mazda Mexico"@)
    } else
    if c1 == 'M' && c2 == 'Z' {
        Some("Mazda Mexico"@)
    } else
    if c1 == 'P' && c2 == '3' {
        Some("Plymouth Mexico"@)
    } else
    if c1 == 'T' && c2 == 'M' {
        Some("Toyota Mexico"@)
    } else
    if c1 == 'V' && c2 == 'W' {
        Some("Volkswagen"@)
    } else {
        None
    }
}

fn maker3_d3_lookup(c1: char, c2: char) -> (r: Option<String>)
    ensures
        opt_str_view(r) == maker3_d3(c1, c2),
{
    if c1 == '0' && c2 == '9' {
        Some(String::from_str("Chevrolet"))
    } else
    if c1 == 'B' && c2 == '7' {
        Some(String::from_str("Dodge Mexico"))
    } else
    if c1 == 'C' && c2 == '3' {
        Some(String::from_str("Fiat"))
    } else
    if c1 == 'C' && c2 == '4' {
        Some(String::from_str("Dodge Mexico"))
    } else
    if c1 == 'C' && c2 == 'Z' {
        Some(String::from_str("Honda Mexico"))
    } else
    if c1 == 'D' && c2 == '4' {
        Some(String::from_str("Dodge"))
    } else
    if c1 == 'G' && c2 == 'C' {
        Some(String::from_str("Chevrolet Mexico"))
    } else
    if c1 == 'G' && c2 == 'N' {
        Some(String::from_str("Chevrolet Mexico"))
    } else
    if c1 == 'G' && c2 == 'Y' {
        Some(String::from_str("Cadillac"))
    } else
    if c1 == 'K' && c2 == 'P' {
        Some(String::from_str("Kia"))
    } else
    if c1 == 'L' && c2 == 'N' {
        Some(String::from_str("Lincoln"))
    } else
    if c1 == 'M' && c2 == 'D' {
        Some(String::from_str("Mazda"))
    } else
    if c1 == 'M' && c2 == 'E' {
        Some(String::from_str("Mercury Mexico"))
    } else
    if c1 == 'M' && c2 == 'Y' {
        Some(String::from_str("Mazda Mexico"))
    } else
    if c1 == 'M' && c2 == 'Z' {
        Some(String::from_str("Mazda Mexico"))
    } else
    if c1 == 'P' && c2 == '3' {
        Some(String::from_str("Plymouth Mexico"))
    } else
    if c1 == 'T' && c2 == 'M' {
        Some(String::from_str("Toyota Mexico"))
    } else
    if c1 == 'V' && c2 == 'W' {
        Some(String::from_str("Volkswagen"))
    } else {
        None
    }
}

pub open spec fn maker3_d4(c1: char, c2: char) -> Option<Seq<char>> {
    if c1 == '6' && c2 == '0' {
        Some("Mercedes-Benz"@)
    } else
    if c1 == 'A' && c2 == '3' {
        Some("Mitsubishi"@)
    } else
    if c1 == 'A' && c2 == '4' {
        Some("Mitsubishi"@)
    } else
    if c1 == 'G' && c2 == 'D' {
        Some("Opel"@)
    } else
    if c1 == 'R' && c2 == 'K' {
        Some("Nova Bus"@)
    } else
    if c1 == 'S' && c2 == '6' {
        Some("Honda"@)
    } else
    if c1 == 'U' && c2 == 'S' {
        Some("BMW"@)
    } else
    if c1 == 'U' && c2 == 'Z' {
        Some("Frt-Thomas Bus"@)
    } else {
        None
    }
}

fn maker3_d4_lookup(c1: char, c2: char) -> (r: Option<String>)
    ensures
        opt_str_view(r) == maker3_d4(c1, c2),
{
    if c1 == '6' && c2 == '0' {
        Some(String::from_str("Mercedes-Benz"))
    } else
    if c1 == 'A' && c2 == '3' {
        Some(String::from_str("Mitsubishi"))
    } else
    if c1 == 'A' && c2 == '4' {
        Some(String::from_str("Mitsubishi"))
    } else
    if c1 == 'G' && c2 == 'D' {
        Some(String::from_str("Opel"))
    } else
    if c1 == 'R' && c2 == 'K' {
        Some(String::from_str("Nova Bus"))
    } else
    if c1 == 'S' && c2 == '6' {
        Some(String::from_str("Honda"))
    } else
    if c1 == 'U' && c2 == 'S' {
        Some(String::from_str("BMW"))
    } else
    if c1 == 'U' && c2 == 'Z' {
        Some(String::from_str("Frt-Thomas Bus"))
    } else {
        None
    }
}

pub open spec fn maker3_d5(c1: char, c2: char) -> Option<Seq<char>> {
    if c1 == '4' && c2 == 'D' {
        Some("Chevrolet"@)
    } else
    if c1 == '5' && c2 == 'S' {
        Some("Mercedes-Benz"@)
    } else
    if c1 == '8' && c2 == 'A' {
        Some("Lexus"@)
    } else
    if c1 == 'F' && c2 == 'R' {
        Some("Acura"@)
    } else
    if c1 == 'G' && c2 == 'A' {
        Some("Buick"@)
    } else
    if c1 == 'G' && c2 == 'N' {
        Some("Hummer"@)
    } else
    if c1 == 'G' && c2 == 'R' {
        Some("Hummer"@)
    } else
    if c1 == 'G' && c2 == 'T' {
        Some("Hummer"@)
    } else
    if c1 == 'G' && c2 == 'Z' {
        Some("Saturn"@)
    } else
    if c1 == 'J' && c2 == '6' {
        Some("Honda"@)
    } else
    if c1 == 'J' && c2 == '8' {
        Some("Acura"@)
    } else
    if c1 == 'K' && c2 == 'B' {
        Some("Honda"@)
    } else
    if c1 == 'N' && c2 == '1' {
        Some("Nissan"@)
    } else
    if c1 == 'N' && c2 == '3' {
        Some("Nissan Infiniti"@)
    } else
    if c1 == 'N' && c2 == 'M' {
        Some("Hyundai"@)
    } else
    if c1 == 'N' && c2 == 'P' {
        Some("Hyundai"@)
    } else
    if c1 == 'X' && c2 == 'X' {
        Some("Kia"@)
    } else
    if c1 == 'X' && c2 == 'Y' {
        Some("Kia"@)
    } else
    if c1 == 'Y' && c2 == '2' {
        Some("Pontiac"@)
    } else
    if c1 == 'Y' && c2 == 'F' {
        Some("Toyota"@)
    } else
    if c1 == 'Y' && c2 == 'J' {
        Some("Tesla"@)
    } else
    if c1 == 'Y' && c2 == 'M' {
        Some("BMW"@)
    } else {
        None
    }
}

fn maker3_d5_lookup(c1: char, c2: char) -> (r: Option<String>)
    ensures
        opt_str_view(r) == maker3_d5(c1, c2),
{
    if c1 == '4' && c2 == 'D' {
        Some(String::from_str("Chevrolet"))
    } else
    if c1 == '5' && c2 == 'S' {
        Some(String::from_str("Mercedes-Benz"))
    } else
    if c1 == '8' && c2 == 'A' {
        Some(String::from_str("Lexus"))
    } else
    if c1 == 'F' && c2 == 'R' {
        Some(String::from_str("Acura"))
    } else
    if c1 == 'G' && c2 == 'A' {
        Some(String::from_str("Buick"))
    } else
    if c1 == 'G' && c2 == 'N' {
        Some(String::from_str("Hummer"))
    } else
    if c1 == 'G' && c2 == 'R' {
        Some(String::from_str("Hummer"))
    } else
    if c1 == 'G' && c2 == 'T' {
        Some(String::from_str("Hummer"))
    } else
    if c1 == 'G' && c2 == 'Z' {
        Some(String::from_str("Saturn"))
    } else
    if c1 == 'J' && c2 == '6' {
        Some(String::from_str("Honda"))
    } else
    if c1 == 'J' && c2 == '8' {
        Some(String::from_str("Acura"))
    } else
    if c1 == 'K' && c2 == 'B' {
        Some(String::from_str("Honda"))
    } else
    if c1 == 'N' && c2 == '1' {
        Some(String::from_str("Nissan"))
    } else
    if c1 == 'N' && c2 == '3' {
        Some(String::from_str("Nissan Infiniti"))
    } else
    if c1 == 'N' && c2 == 'M' {
        Some(String::from_str("Hyundai"))
    } else
    if c1 == 'N' && c2 == 'P' {
        Some(String::from_str("Hyundai"))
    } else
    if c1 == 'X' && c2 == 'X' {
        Some(String::from_str("Kia"))
    } else
    if c1 == 'X' && c2 == 'Y' {
        Some(String::from_str("Kia"))
    } else
    if c1 == 'Y' && c2 == '2' {
        Some(String::from_str("Pontiac"))
    } else
    if c1 == 'Y' && c2 == 'F' {
        Some(String::from_str("Toyota"))
    } else
    if c1 == 'Y' && c2 == 'J' {
        Some(String::from_str("Tesla"))
    } else
    if c1 == 'Y' && c2 == 'M' {
        Some(String::from_str("BMW"))
    } else {
        None
    }
}

pub open spec fn maker3_d6(c1: char, c2: char) -> Option<Seq<char>> {
    if c1 == '0' && c2 == '1' {
        Some("Replica/Kit Makes"@)
    } else
    if c1 == '0' && c2 == '2' {
        Some("Toyota"@)
    } else
    if c1 == 'A' && c2 == 'B' {
        Some("MAN"@)
    } else
    if c1 == 'F' && c2 == '4' {
        Some("Nissan Motor Company"@)
    } else
    if c1 == 'F' && c2 == '5' {
        Some("Kenworth"@)
    } else
    if c1 == 'F' && c2 == 'P' {
        Some("Ford Motor Company"@)
    } else
    if c1 == 'G' && c2 == '1' {
        Some("Chevrolet"@)
    } else
    if c1 == 'G' && c2 == '2' {
        Some("Pontiac"@)
    } else
    if c1 == 'G' && c2 == '3' {
        Some("Chevrolet Australia"@)
    } else
    if c1 == 'H' && c2 == '8' {
        Some("General Motors-Holden"@)
    } else
    if c1 == 'M' && c2 == 'M' {
        Some("Mitsubishi"@)
    } else
    if c1 == 'T' && c2 == '1' {
        Some("Toyota"@)
    } else {
        None
    }
}

fn maker3_d6_lookup(c1: char, c2: char) -> (r: Option<String>)
    ensures
        opt_str_view(r) == maker3_d6(c1, c2),
{
    if c1 == '0' && c2 == '1' {
        Some(String::from_str("Replica/Kit Makes"))
    } else
    if c1 == '0' && c2 == '2' {
        Some(String::from_str("Toyota"))
    } else
    if c1 == 'A' && c2 == 'B' {
        Some(String::from_str("MAN"))
    } else
    if c1 == 'F' && c2 == '4' {
        Some(String::from_str("Nissan Motor Company"))
    } else
    if c1 == 'F' && c2 == '5' {
        Some(String::from_str("Kenworth"))
    } else
    if c1 == 'F' && c2 == 'P' {
        Some(String::from_str("Ford Motor Company"))
    } else
    if c1 == 'G' && c2 == '1' {
        Some(String::from_str("Chevrolet"))
    } else
    if c1 == 'G' && c2 == '2' {
        Some(String::from_str("Pontiac"))
    } else
    if c1 == 'G' && c2 == '3' {
        Some(String::from_str("Chevrolet Australia"))
    } else
    if c1 == 'H' && c2 == '8' {
        Some(String::from_str("General Motors-Holden"))
    } else
    if c1 == 'M' && c2 == 'M' {
        Some(String::from_str("Mitsubishi"))
    } else
    if c1 == 'T' && c2 == '1' {
        Some(String::from_str("Toyota"))
    } else {
        None
    }
}

pub open spec fn maker3_d7(c1: char, c2: char) -> Option<Seq<char>> {
    if c1 == 'A' && c2 == '3' {
        Some("Honda"@)
    } else {
        None
    }
}

fn maker3_d7_lookup(c1: char, c2: char) -> (r: Option<String>)
    ensures
        opt_str_view(r) == maker3_d7(c1, c2),
{
    if c1 == 'A' && c2 == '3' {
        Some(String::from_str("Honda"))
    } else {
        None
    }
}

pub open spec fn maker3_d8(c1: char, c2: char) -> Option<Seq<char>> {
    if c1 == 'A' && c2 == '1' {
        Some("Renault"@)
    } else
    if c1 == 'A' && c2 == 'C' {
        Some("Mercedes Benz"@)
    } else
    if c1 == 'A' && c2 == 'D' {
        Some("Peugeot"@)
    } else
    if c1 == 'A' && c2 == 'F' {
        Some("Ford"@)
    } else
    if c1 == 'A' && c2 == 'G' {
        Some("General Motors"@)
    } else
    if c1 == 'A' && c2 == 'J' {
        Some("Toyota"@)
    } else
    if c1 == 'A' && c2 == 'K' {
        Some("Suzuki"@)
    } else
    if c1 == 'A' && c2 == 'P' {
        Some("Fiat"@)
    } else
    if c1 == 'A' && c2 == 'T' {
        Some("Iveco"@)
    } else
    if c1 == 'A' && c2 == 'W' {
        Some("Volkswagen"@)
    } else
    if c1 == 'B' && c2 == 'C' {
        Some("Citroën"@)
    } else
    if c1 == 'B' && c2 == 'R' {
        Some("Mercedes-Benz Argentina"@)
    } else
    if c1 == 'B' && c2 == 'T' {
        Some("Mercedes-Benz Argentina"@)
    } else
    if c1 == 'C' && c2 == '3' {
        Some("Honda"@)
    } else
    if c1 == 'G' && c2 == 'D' {
        Some("Peugeot"@)
    } else
    if c1 == 'G' && c2 == 'G' {
        Some("Chevrolet"@)
    } else {
        None
    }
}

fn maker3_d8_lookup(c1: char, c2: char) -> (r: Option<String>)
    ensures
        opt_str_view(r) == maker3_d8(c1, c2),
{
    if c1 == 'A' && c2 == '1' {
        Some(String::from_str("Renault"))
    } else
    if c1 == 'A' && c2 == 'C' {
        Some(String::from_str("Mercedes Benz"))
    } else
    if c1 == 'A' && c2 == 'D' {
        Some(String::from_str("Peugeot"))
    } else
    if c1 == 'A' && c2 == 'F' {
        Some(String::from_str("Ford"))
    } else
    if c1 == 'A' && c2 == 'G' {
        Some(String::from_str("General Motors"))
    } else
    if c1 == 'A' && c2 == 'J' {
        Some(String::from_str("Toyota"))
    } else
    if c1 == 'A' && c2 == 'K' {
        Some(String::from_str("Suzuki"))
    } else
    if c1 == 'A' && c2 == 'P' {
        Some(String::from_str("Fiat"))
    } else
    if c1 == 'A' && c2 == 'T' {
        Some(String::from_str("Iveco"))
    } else
    if c1 == 'A' && c2 == 'W' {
        Some(String::from_str("Volkswagen"))
    } else
    if c1 == 'B' && c2 == 'C' {
        Some(String::from_str("Citroën"))
    } else
    if c1 == 'B' && c2 == 'R' {
        Some(String::from_str("Mercedes-Benz Argentina"))
    } else
    if c1 == 'B' && c2 == 'T' {
        Some(String::from_str("Mercedes-Benz Argentina"))
    } else
    if c1 == 'C' && c2 == '3' {
        Some(String::from_str("Honda"))
    } else
    if c1 == 'G' && c2 == 'D' {
        Some(String::from_str("Peugeot"))
    } else
    if c1 == 'G' && c2 == 'G' {
        Some(String::from_str("Chevrolet"))
    } else {
        None
    }
}

pub open spec fn maker3_d9(c1: char, c2: char) -> Option<Seq<char>> {
    if c1 == '3' && c2 == '5' {
        Some("Citroën"@)
    } else
    if c1 == '3' && c2 == '6' {
        Some("Peugeot"@)
    } else
    if c1 == '3' && c2 == 'H' {
        Some("Honda"@)
    } else
    if c1 == '3' && c2 == 'R' {
        Some("Toyota"@)
    } else
    if c1 == '3' && c2 == 'U' {
        Some("Audi"@)
    } else
    if c1 == '3' && c2 == 'V' {
        Some("Audi Brazil"@)
    } else
    if c1 == '3' && c2 == 'W' {
        Some("Fiat Professional"@)
    } else
    if c1 == '3' && c2 == 'X' {
        Some("Souza Ramos - Mitsubishi / Suzuki"@)
    } else
    if c1 == '3' && c2 == 'Y' {
        Some("Renault"@)
    } else
    if c1 == '3' && c2 == 'Z' {
        Some("Iveco"@)
    } else
    if c1 == '4' && c2 == 'D' {
        Some("Nissan"@)
    } else
    if c1 == '5' && c2 == '3' {
        Some("VW Trucks / MAN"@)
    } else
    if c1 == '5' && c2 == 'P' {
        Some("CAOA / Hyundai"@)
    } else
    if c1 == '8' && c2 == '8' {
        Some("Jeep"@)
    } else
    if c1 == '8' && c2 == 'M' {
        Some("BMW"@)
    } else
    if c1 == '8' && c2 == 'R' {
        Some("Chery"@)
    } else
    if c1 == '9' && c2 == 'A' {
        Some("Audi"@)
    } else
    if c1 == '9' && c2 == 'J' {
        Some("JLR Jaguar Land Rover"@)
    } else
    if c1 == 'B' && c2 == 'D' {
        Some("Fiat Automóveis"@)
    } else
    if c1 == 'B' && c2 == 'F' {
        Some("Ford"@)
    } else
    if c1 == 'B' && c2 == 'G' {
        Some("General Motors"@)
    } else
    if c1 == 'B' && c2 == 'H' {
        Some("Hyundai Motor Company / Hyundai"@)
    } else
    if c1 == 'B' && c2 == 'M' {
        Some("Mercedes Benz"@)
    } else
    if c1 == 'B' && c2 == 'R' {
        Some("Toyota"@)
    } else
    if c1 == 'B' && c2 == 'S' {
        Some("Scania"@)
    } else
    if c1 == 'B' && c2 == 'V' {
        Some("Volvo Trucks"@)
    } else
    if c1 == 'B' && c2 == 'W' {
        Some("Volkswagen"@)
    } else
    if c1 == 'C' && c2 == '2' {
        Some("Honda Motorcycles"@)
    } else
    if c1 == 'C' && c2 == '6' {
        Some("Yamaha"@)
    } else
    if c1 == 'C' && c2 == 'D' {
        Some("Suzuki Motorcycles"@)
    } else
    if c1 == 'F' && c2 == 'B' {
        Some("Renault"@)
    } else
    if c1 == 'U' && c2 == 'J' {
        Some("Chery"@)
    } else
    if c1 == 'U' && c2 == 'K' {
        Some("Lifan"@)
    } else
    if c1 == 'U' && c2 == 'W' {
        Some("Kia"@)
    } else {
        None
    }
}

fn maker3_d9_lookup(c1: char, c2: char) -> (r: Option<String>)
    ensures
        opt_str_view(r) == maker3_d9(c1, c2),
{
    if c1 == '3' && c2 == '5' {
        Some(String::from_str("Citroën"))
    } else
    if c1 == '3' && c2 == '6' {
        Some(String::from_str("Peugeot"))
    } else
    if c1 == '3' && c2 == 'H' {
        Some(String::from_str("Honda"))
    } else
    if c1 == '3' && c2 == 'R' {
        Some(String::from_str("Toyota"))
    } else
    if c1 == '3' && c2 == 'U' {
        Some(String::from_str("Audi"))
    } else
    if c1 == '3' && c2 == 'V' {
        Some(String::from_str("Audi Brazil"))
    } else
    if c1 == '3' && c2 == 'W' {
        Some(String::from_str("Fiat Professional"))
    } else
    if c1 == '3' && c2 == 'X' {
        Some(String::from_str("Souza Ramos - Mitsubishi / Suzuki"))
    } else
    if c1 == '3' && c2 == 'Y' {
        Some(String::from_str("Renault"))
    } else
    if c1 == '3' && c2 == 'Z' {
        Some(String::from_str("Iveco"))
    } else
    if c1 == '4' && c2 == 'D' {
        Some(String::from_str("Nissan"))
    } else
    if c1 == '5' && c2 == '3' {
        Some(String::from_str("VW Trucks / MAN"))
    } else
    if c1 == '5' && c2 == 'P' {
        Some(String::from_str("CAOA / Hyundai"))
    } else
    if c1 == '8' && c2 == '8' {
        Some(String::from_str("Jeep"))
    } else
    if c1 == '8' && c2 == 'M' {
        Some(String::from_str("BMW"))
    } else
    if c1 == '8' && c2 == 'R' {
        Some(String::from_str("Chery"))
    } else
    if c1 == '9' && c2 == 'A' {
        Some(String::from_str("Audi"))
    } else
    if c1 == '9' && c2 == 'J' {
        Some(String::from_str("JLR Jaguar Land Rover"))
    } else
    if c1 == 'B' && c2 == 'D' {
        Some(String::from_str("Fiat Automóveis"))
    } else
    if c1 == 'B' && c2 == 'F' {
        Some(String::from_str("Ford"))
    } else
    if c1 == 'B' && c2 == 'G' {
        Some(String::from_str("General Motors"))
    } else
    if c1 == 'B' && c2 == 'H' {
        Some(String::from_str("Hyundai Motor Company / Hyundai"))
    } else
    if c1 == 'B' && c2 == 'M' {
        Some(String::from_str("Mercedes Benz"))
    } else
    if c1 == 'B' && c2 == 'R' {
        Some(String::from_str("Toyota"))
    } else
    if c1 == 'B' && c2 == 'S' {
        Some(String::from_str("Scania"))
    } else
    if c1 == 'B' && c2 == 'V' {
        Some(String::from_str("Volvo Trucks"))
    } else
    if c1 == 'B' && c2 == 'W' {
        Some(String::from_str("Volkswagen"))
    } else
    if c1 == 'C' && c2 == '2' {
        Some(String::from_str("Honda Motorcycles"))
    } else
    if c1 == 'C' && c2 == '6' {
        Some(String::from_str("Yamaha"))
    } else
    if c1 == 'C' && c2 == 'D' {
        Some(String::from_str("Suzuki Motorcycles"))
    } else
    if c1 == 'F' && c2 == 'B' {
        Some(String::from_str("Renault"))
    } else
    if c1 == 'U' && c2 == 'J' {
        Some(String::from_str("Chery"))
    } else
    if c1 == 'U' && c2 == 'K' {
        Some(String::from_str("Lifan"))
    } else
    if c1 == 'U' && c2 == 'W' {
        Some(String::from_str("Kia"))
    } else {
        None
    }
}

pub open spec fn maker3_d0(c1: char, c2: char) -> Option<Seq<char>> {
    if c1 == 'V' && c2 == 'F' {
        Some("Ford"@)
    } else {
        None
    }
}

fn maker3_d0_lookup(c1: char, c2: char) -> (r: Option<String>)
    ensures
        opt_str_view(r) == maker3_d0(c1, c2),
{
    if c1 == 'V' && c2 == 'F' {
        Some(String::from_str("Ford"))
    } else {
        None
    }
}

/// The manufacturer registered under a three-character code, if any.
pub open spec fn manufacturer3_of(c0: char, c1: char, c2: char) -> Option<Seq<char>> {
    if c0 == 'A' {
        maker3_a(c1, c2)
    } else
    if c0 == 'B' {
        maker3_b(c1, c2)
    } else
    if c0 == 'C' {
        maker3_c(c1, c2)
    } else
    if c0 == 'E' {
        maker3_e(c1, c2)
    } else
    if c0 == 'F' {
        maker3_f(c1, c2)
    } else
    if c0 == 'G' {
        maker3_g(c1, c2)
    } else
    if c0 == 'J' {
        maker3_j(c1, c2)
    } else
    if c0 == 'K' {
        maker3_k(c1, c2)
    } else
    if c0 == 'L' {
        maker3_l(c1, c2)
    } else
    if c0 == 'M' {
        maker3_m(c1, c2)
    } else
    if c0 == 'N' {
        maker3_n(c1, c2)
    } else
    if c0 == 'P' {
        maker3_p(c1, c2)
    } else
    if c0 == 'S' {
        maker3_s(c1, c2)
    } else
    if c0 == 'T' {
        maker3_t(c1, c2)
    } else
    if c0 == 'U' {
        maker3_u(c1, c2)
    } else
    if c0 == 'V' {
        maker3_v(c1, c2)
    } else
    if c0 == 'W' {
        maker3_w(c1, c2)
    } else
    if c0 == 'X' {
        maker3_x(c1, c2)
    } else
    if c0 == 'Y' {
        maker3_y(c1, c2)
    } else
    if c0 == 'Z' {
        maker3_z(c1, c2)
    } else
    if c0 == '1' {
        maker3_d1(c1, c2)
    } else
    if c0 == '2' {
        maker3_d2(c1, c2)
    } else
    if c0 == '3' {
        maker3_d3(c1, c2)
    } else
    if c0 == '4' {
        maker3_d4(c1, c2)
    } else
    if c0 == '5' {
        maker3_d5(c1, c2)
    } else
    if c0 == '6' {
        maker3_d6(c1, c2)
    } else
    if c0 == '7' {
        maker3_d7(c1, c2)
    } else
    if c0 == '8' {
        maker3_d8(c1, c2)
    } else
    if c0 == '9' {
        maker3_d9(c1, c2)
    } else
    if c0 == '0' {
        maker3_d0(c1, c2)
    } else {
        None
    }
}

fn manufacturer3_lookup(c0: char, c1: char, c2: char) -> (r: Option<String>)
    ensures
        opt_str_view(r) == manufacturer3_of(c0, c1, c2),
{
    if c0 == 'A' {
        maker3_a_lookup(c1, c2)
    } else
    if c0 == 'B' {
        maker3_b_lookup(c1, c2)
    } else
    if c0 == 'C' {
        maker3_c_lookup(c1, c2)
    } else
    if c0 == 'E' {
        maker3_e_lookup(c1, c2)
    } else
    if c0 == 'F' {
        maker3_f_lookup(c1, c2)
    } else
    if c0 == 'G' {
        maker3_g_lookup(c1, c2)
    } else
    if c0 == 'J' {
        maker3_j_lookup(c1, c2)
    } else
    if c0 == 'K' {
        maker3_k_lookup(c1, c2)
    } else
    if c0 == 'L' {
        maker3_l_lookup(c1, c2)
    } else
    if c0 == 'M' {
        maker3_m_lookup(c1, c2)
    } else
    if c0 == 'N' {
        maker3_n_lookup(c1, c2)
    } else
    if c0 == 'P' {
        maker3_p_lookup(c1, c2)
    } else
    if c0 == 'S' {
        maker3_s_lookup(c1, c2)
    } else
    if c0 == 'T' {
        maker3_t_lookup(c1, c2)
    } else
    if c0 == 'U' {
        maker3_u_lookup(c1, c2)
    } else
    if c0 == 'V' {
        maker3_v_lookup(c1, c2)
    } else
    if c0 == 'W' {
        maker3_w_lookup(c1, c2)
    } else
    if c0 == 'X' {
        maker3_x_lookup(c1, c2)
    } else
    if c0 == 'Y' {
        maker3_y_lookup(c1, c2)
    } else
    if c0 == 'Z' {
        maker3_z_lookup(c1, c2)
    } else
    if c0 == '1' {
        maker3_d1_lookup(c1, c2)
    } else
    if c0 == '2' {
        maker3_d2_lookup(c1, c2)
    } else
    if c0 == '3' {
        maker3_d3_lookup(c1, c2)
    } else
    if c0 == '4' {
        maker3_d4_lookup(c1, c2)
    } else
    if c0 == '5' {
        maker3_d5_lookup(c1, c2)
    } else
    if c0 == '6' {
        maker3_d6_lookup(c1, c2)
    } else
    if c0 == '7' {
        maker3_d7_lookup(c1, c2)
    } else
    if c0 == '8' {
        maker3_d8_lookup(c1, c2)
    } else
    if c0 == '9' {
        maker3_d9_lookup(c1, c2)
    } else
    if c0 == '0' {
        maker3_d0_lookup(c1, c2)
    } else {
        None
    }
}

/// The manufacturer registered under a two-character code, if any.
pub open spec fn manufacturer2_of(c0: char, c1: char) -> Option<Seq<char>> {
    if c0 == '1' && c1 == '9' {
        Some("Acura"@)
    } else
    if c0 == '1' && c1 == 'B' {
        Some("Dodge"@)
    } else
    if c0 == '1' && c1 == 'C' {
        Some("Chrysler"@)
    } else
    if c0 == '1' && c1 == 'D' {
        Some("Dodge"@)
    } else
    if c0 == '1' && c1 == 'F' {
        Some("Ford"@)
    } else
    if c0 == '1' && c1 == 'G' {
        Some("General Motors"@)
    } else
    if c0 == '1' && c1 == 'H' {
        Some("Honda"@)
    } else
    if c0 == '1' && c1 == 'J' {
        Some("Jeep"@)
    } else
    if c0 == '1' && c1 == 'L' {
        Some("Lincoln"@)
    } else
    if c0 == '1' && c1 == 'M' {
        Some("Mercury"@)
    } else
    if c0 == '1' && c1 == 'N' {
        Some("Nissan"@)
    } else
    if c0 == '2' && c1 == 'F' {
        Some("Ford"@)
    } else
    if c0 == '2' && c1 == 'G' {
        Some("General Motors"@)
    } else
    if c0 == '2' && c1 == 'H' {
        Some("Honda"@)
    } else
    if c0 == '2' && c1 == 'L' {
        Some("Lincoln"@)
    } else
    if c0 == '2' && c1 == 'M' {
        Some("Mercury"@)
    } else
    if c0 == '2' && c1 == 'T' {
        Some("Toyota"@)
    } else
    if c0 == '2' && c1 == 'W' {
        Some("Western Star"@)
    } else
    if c0 == '3' && c1 == 'A' {
        Some("Chrysler Mexico"@)
    } else
    if c0 == '3' && c1 == 'C' {
        Some("Chrysler"@)
    } else
    if c0 == '3' && c1 == 'D' {
        Some("Dodge"@)
    } else
    if c0 == '3' && c1 == 'F' {
        Some("Ford"@)
    } else
    if c0 == '3' && c1 == 'G' {
        Some("General Motors"@)
    } else
    if c0 == '3' && c1 == 'H' {
        Some("Honda"@)
    } else
    if c0 == '3' && c1 == 'N' {
        Some("Nissan"@)
    } else
    if c0 == '4' && c1 == 'A' {
        Some("Mitsubishi"@)
    } else
    if c0 == '4' && c1 == 'F' {
        Some("Mazda"@)
    } else
    if c0 == '4' && c1 == 'J' {
        Some("Mercedes-Benz"@)
    } else
    if c0 == '4' && c1 == 'M' {
        Some("Mercury"@)
    } else
    if c0 == '4' && c1 == 'S' {
        Some("Subaru-Isuzu Automotive"@)
    } else
    if c0 == '4' && c1 == 'T' {
        Some("Toyota"@)
    } else
    if c0 == '4' && c1 == 'V' {
        Some("Volvo"@)
    } else
    if c0 == '5' && c1 == '5' {
        Some("Mercedes-Benz"@)
    } else
    if c0 == '5' && c1 == 'F' {
        Some("Honda"@)
    } else
    if c0 == '5' && c1 == 'L' {
        Some("Lincoln"@)
    } else
    if c0 == '5' && c1 == 'T' {
        Some("Toyota"@)
    } else
    if c0 == '5' && c1 == 'U' {
        Some("BMW"@)
    } else
    if c0 == '5' && c1 == 'X' {
        Some("Hyundai/Kia"@)
    } else
    if c0 == '6' && c1 == 'F' {
        Some("Ford"@)
    } else
    if c0 == '6' && c1 == 'G' {
        Some("General Motors"@)
    } else
    if c0 == '6' && c1 == 'H' {
        Some("Holden"@)
    } else
    if c0 == 'J' && c1 == 'A' {
        Some("Isuzu"@)
    } else
    if c0 == 'J' && c1 == 'F' {
        Some("Fuji Heavy Industries"@)
    } else
    if c0 == 'J' && c1 == 'H' {
        Some("Honda"@)
    } else
    if c0 == 'J' && c1 == 'K' {
        Some("Kawasaki"@)
    } else
    if c0 == 'J' && c1 == 'M' {
        Some("Mazda"@)
    } else
    if c0 == 'J' && c1 == 'N' {
        Some("Nissan"@)
    } else
    if c0 == 'J' && c1 == 'S' {
        Some("Suzuki"@)
    } else
    if c0 == 'J' && c1 == 'T' {
        Some("Toyota"@)
    } else
    if c0 == 'J' && c1 == 'Y' {
        Some("Yamaha"@)
    } else
    if c0 == 'K' && c1 == 'L' {
        Some("Daewoo/GM Korea"@)
    } else
    if c0 == 'K' && c1 == 'M' {
        Some("Hyundai"@)
    } else
    if c0 == 'K' && c1 == 'N' {
        Some("Kia"@)
    } else
    if c0 == 'K' && c1 == 'P' {
        Some("SsangYong"@)
    } else
    if c0 == 'U' && c1 == 'U' {
        Some("Dacia"@)
    } else
    if c0 == 'W' && c1 == 'B' {
        Some("BMW"@)
    } else
    if c0 == 'W' && c1 == 'V' {
        Some("Volkswagen"@)
    } else {
        None
    }
}

fn manufacturer2_lookup(c0: char, c1: char) -> (r: Option<String>)
    ensures
        opt_str_view(r) == manufacturer2_of(c0, c1),
{
    if c0 == '1' && c1 == '9' {
        Some(String::from_str("Acura"))
    } else
    if c0 == '1' && c1 == 'B' {
        Some(String::from_str("Dodge"))
    } else
    if c0 == '1' && c1 == 'C' {
        Some(String::from_str("Chrysler"))
    } else
    if c0 == '1' && c1 == 'D' {
        Some(String::from_str("Dodge"))
    } else
    if c0 == '1' && c1 == 'F' {
        Some(String::from_str("Ford"))
    } else
    if c0 == '1' && c1 == 'G' {
        Some(String::from_str("General Motors"))
    } else
    if c0 == '1' && c1 == 'H' {
        Some(String::from_str("Honda"))
    } else
    if c0 == '1' && c1 == 'J' {
        Some(String::from_str("Jeep"))
    } else
    if c0 == '1' && c1 == 'L' {
        Some(String::from_str("Lincoln"))
    } else
    if c0 == '1' && c1 == 'M' {
        Some(String::from_str("Mercury"))
    } else
    if c0 == '1' && c1 == 'N' {
        Some(String::from_str("Nissan"))
    } else
    if c0 == '2' && c1 == 'F' {
        Some(String::from_str("Ford"))
    } else
    if c0 == '2' && c1 == 'G' {
        Some(String::from_str("General Motors"))
    } else
    if c0 == '2' && c1 == 'H' {
        Some(String::from_str("Honda"))
    } else
    if c0 == '2' && c1 == 'L' {
        Some(String::from_str("Lincoln"))
    } else
    if c0 == '2' && c1 == 'M' {
        Some(String::from_str("Mercury"))
    } else
    if c0 == '2' && c1 == 'T' {
        Some(String::from_str("Toyota"))
    } else
    if c0 == '2' && c1 == 'W' {
        Some(String::from_str("Western Star"))
    } else
    if c0 == '3' && c1 == 'A' {
        Some(String::from_str("Chrysler Mexico"))
    } else
    if c0 == '3' && c1 == 'C' {
        Some(String::from_str("Chrysler"))
    } else
    if c0 == '3' && c1 == 'D' {
        Some(String::from_str("Dodge"))
    } else
    if c0 == '3' && c1 == 'F' {
        Some(String::from_str("Ford"))
    } else
    if c0 == '3' && c1 == 'G' {
        Some(String::from_str("General Motors"))
    } else
    if c0 == '3' && c1 == 'H' {
        Some(String::from_str("Honda"))
    } else
    if c0 == '3' && c1 == 'N' {
        Some(String::from_str("Nissan"))
    } else
    if c0 == '4' && c1 == 'A' {
        Some(String::from_str("Mitsubishi"))
    } else
    if c0 == '4' && c1 == 'F' {
        Some(String::from_str("Mazda"))
    } else
    if c0 == '4' && c1 == 'J' {
        Some(String::from_str("Mercedes-Benz"))
    } else
    if c0 == '4' && c1 == 'M' {
        Some(String::from_str("Mercury"))
    } else
    if c0 == '4' && c1 == 'S' {
        Some(String::from_str("Subaru-Isuzu Automotive"))
    } else
    if c0 == '4' && c1 == 'T' {
        Some(String::from_str("Toyota"))
    } else
    if c0 == '4' && c1 == 'V' {
        Some(String::from_str("Volvo"))
    } else
    if c0 == '5' && c1 == '5' {
        Some(String::from_str("Mercedes-Benz"))
    } else
    if c0 == '5' && c1 == 'F' {
        Some(String::from_str("Honda"))
    } else
    if c0 == '5' && c1 == 'L' {
        Some(String::from_str("Lincoln"))
    } else
    if c0 == '5' && c1 == 'T' {
        Some(String::from_str("Toyota"))
    } else
    if c0 == '5' && c1 == 'U' {
        Some(String::from_str("BMW"))
    } else
    if c0 == '5' && c1 == 'X' {
        Some(String::from_str("Hyundai/Kia"))
    } else
    if c0 == '6' && c1 == 'F' {
        Some(String::from_str("Ford"))
    } else
    if c0 == '6' && c1 == 'G' {
        Some(String::from_str("General Motors"))
    } else
    if c0 == '6' && c1 == 'H' {
        Some(String::from_str("Holden"))
    } else
    if c0 == 'J' && c1 == 'A' {
        Some(String::from_str("Isuzu"))
    } else
    if c0 == 'J' && c1 == 'F' {
        Some(String::from_str("Fuji Heavy Industries"))
    } else
    if c0 == 'J' && c1 == 'H' {
        Some(String::from_str("Honda"))
    } else
    if c0 == 'J' && c1 == 'K' {
        Some(String::from_str("Kawasaki"))
    } else
    if c0 == 'J' && c1 == 'M' {
        Some(String::from_str("Mazda"))
    } else
    if c0 == 'J' && c1 == 'N' {
        Some(String::from_str("Nissan"))
    } else
    if c0 == 'J' && c1 == 'S' {
        Some(String::from_str("Suzuki"))
    } else
    if c0 == 'J' && c1 == 'T' {
        Some(String::from_str("Toyota"))
    } else
    if c0 == 'J' && c1 == 'Y' {
        Some(String::from_str("Yamaha"))
    } else
    if c0 == 'K' && c1 == 'L' {
        Some(String::from_str("Daewoo/GM Korea"))
    } else
    if c0 == 'K' && c1 == 'M' {
        Some(String::from_str("Hyundai"))
    } else
    if c0 == 'K' && c1 == 'N' {
        Some(String::from_str("Kia"))
    } else
    if c0 == 'K' && c1 == 'P' {
        Some(String::from_str("SsangYong"))
    } else
    if c0 == 'U' && c1 == 'U' {
        Some(String::from_str("Dacia"))
    } else
    if c0 == 'W' && c1 == 'B' {
        Some(String::from_str("BMW"))
    } else
    if c0 == 'W' && c1 == 'V' {
        Some(String::from_str("Volkswagen"))
    } else {
        None
    }
}

/// The manufacturer encoded by the first three characters of a VIN: the
/// three-character code where one is registered, else the two-character one.
pub open spec fn manufacturer_of(c0: char, c1: char, c2: char) -> Option<Seq<char>> {
    match manufacturer3_of(c0, c1, c2) {
        Some(m) => Some(m),
        None => manufacturer2_of(c0, c1),
    }
}

/// Manufacturer lookup with the three-then-two character fallback, as
/// executable code.
fn manufacturer_lookup(c0: char, c1: char, c2: char) -> (r: Option<String>)
    ensures
        opt_str_view(r) == manufacturer_of(c0, c1, c2),
{
    match manufacturer3_lookup(c0, c1, c2) {
        Some(m) => Some(m),
        None => manufacturer2_lookup(c0, c1),
    }
}

/// Whether the registry holds a record whose prefix matches the leading
/// characters of the VIN: a three-character manufacturer code, a
/// two-character manufacturer code, or a two-character country code.
pub open spec fn registered(c0: char, c1: char, c2: char) -> bool {
    manufacturer_of(c0, c1, c2) is Some || country_of(c0, c1) is Some
}

/// The region field of the matched record: every record carries the region
/// its first character encodes, so the region is present exactly where some
/// record matches and the region table knows its first character. With no
/// matching record the region is absent, like every other field.
pub open spec fn region_of_match(c0: char, c1: char, c2: char) -> Option<Seq<char>> {
    if registered(c0, c1, c2) {
        region_of(c0)
    } else {
        None
    }
}

/// An unregistered prefix decodes to nothing: where neither the
/// three-character nor the two-character prefix matches a record, the
/// country, the manufacturer and the region are all absent.
pub proof fn lemma_unregistered_prefix_absent(c0: char, c1: char, c2: char)
    requires
        !registered(c0, c1, c2),
    ensures
        country_of(c0, c1) is None,
        manufacturer_of(c0, c1, c2) is None,
        region_of_match(c0, c1, c2) is None,
{
}

/// What the registry knows of a VIN prefix; a field is absent where the
/// prefix is not registered.
pub struct WmiMatch {
    /// Country of the manufacturer.
    pub country: Option<String>,
    /// Region of the manufacturer.
    pub region: Option<String>,
    /// Name of the manufacturer.
    pub manufacturer: Option<String>,
}

/// Looks the leading characters of a well-formed VIN up in the registry:
/// the fields of the matched record, or all fields absent where no two- or
/// three-character prefix is registered.
pub fn lookup(vin: &Vin) -> (r: WmiMatch)
    ensures
        opt_str_view(r.country) == country_of(vin@[0], vin@[1]),
        opt_str_view(r.region) == region_of_match(vin@[0], vin@[1], vin@[2]),
        opt_str_view(r.manufacturer) == manufacturer_of(vin@[0], vin@[1], vin@[2]),
{
    let c0 = vin.char_at(0);
    let c1 = vin.char_at(1);
    let c2 = vin.char_at(2);
    let country = country_lookup(c0, c1);
    let manufacturer = manufacturer_lookup(c0, c1, c2);
    let region = if country.is_some() || manufacturer.is_some() {
        region_lookup(c0)
    } else {
        None
    };
    WmiMatch { country, region, manufacturer }
}

} // verus!
