//! `INET` and `CIDR` columns, which the Data API returns as text, read
//! with the `cidr` crate.
use vstd::prelude::*;

use super::datetime::read_column;
use super::field::{
    DecodeError, Field, Row, expect_string, field_at, field_is_null, spec_field_at, spec_is_null,
    string_of,
};

verus! {

/// An `INET` value: a host address with the length of its network prefix.
#[derive(Debug, Clone, PartialEq, Eq)]
pub struct InetParts {
    /// Whether the address is IPv6 (else IPv4).
    pub is_v6: bool,
    /// The address, four bytes for IPv4 and sixteen for IPv6.
    pub octets: Vec<u8>,
    /// The length of the network prefix, in bits.
    pub prefix_len: u8,
}

/// A `CIDR` value: a network, as its first address and prefix length.
#[derive(Debug, Clone, PartialEq, Eq)]
pub struct CidrParts {
    /// Whether the network is IPv6 (else IPv4).
    pub is_v6: bool,
    /// The first address of the network, four bytes for IPv4 and sixteen
    /// for IPv6.
    pub octets: Vec<u8>,
    /// The length of the network prefix, in bits.
    pub prefix_len: u8,
}

/// What `cidr::IpInet::from_str` reads from `text`, as its parts; `None`
/// where it reports an error.
pub uninterp spec fn cidr_inet_parse(text: Seq<char>) -> Option<InetParts>;

/// What `cidr::IpCidr::from_str` reads from `text`, as its parts; `None`
/// where it reports an error.
pub uninterp spec fn cidr_cidr_parse(text: Seq<char>) -> Option<CidrParts>;

/// An address of the family that `is_v6` names, with a prefix no longer
/// than the address.
pub open spec fn well_formed_address(is_v6: bool, octets: Seq<u8>, prefix_len: u8) -> bool {
    if is_v6 {
        octets.len() == 16 && prefix_len <= 128
    } else {
        octets.len() == 4 && prefix_len <= 32
    }
}

/// `cidr::IpInet::from_str(text)`, as its parts.
///
/// Claims: the result depends on `text` alone (it is named
/// `cidr_inet_parse`), and an address read has four bytes and a prefix of
/// at most 32 bits for IPv4, sixteen bytes and at most 128 bits for IPv6,
/// as the crate's `Ipv4Inet` and `Ipv6Inet` hold them. Which texts the
/// crate accepts is not stated.
#[verifier::external_body]
fn parse_inet(text: &str) -> (res: Option<InetParts>)
    ensures
        res == cidr_inet_parse(text@),
        res matches Some(p) ==> well_formed_address(p.is_v6, p.octets@, p.prefix_len),
{
    match text.parse::<cidr::IpInet>() {
        Ok(cidr::IpInet::V4(i)) => Some(
            InetParts { is_v6: false, octets: i.address().octets().to_vec(), prefix_len: i.network_length() },
        ),
        Ok(cidr::IpInet::V6(i)) => Some(
            InetParts { is_v6: true, octets: i.address().octets().to_vec(), prefix_len: i.network_length() },
        ),
        Err(_) => None,
    }
}

/// `cidr::IpCidr::from_str(text)`, as its parts.
///
/// Claims: the result depends on `text` alone (it is named
/// `cidr_cidr_parse`), and a network read has four bytes and a prefix of
/// at most 32 bits for IPv4, sixteen bytes and at most 128 bits for IPv6.
/// Which texts the crate accepts is not stated.
#[verifier::external_body]
fn parse_cidr(text: &str) -> (res: Option<CidrParts>)
    ensures
        res == cidr_cidr_parse(text@),
        res matches Some(p) ==> well_formed_address(p.is_v6, p.octets@, p.prefix_len),
{
    match text.parse::<cidr::IpCidr>() {
        Ok(cidr::IpCidr::V4(c)) => Some(
            CidrParts { is_v6: false, octets: c.first_address().octets().to_vec(), prefix_len: c.network_length() },
        ),
        Ok(cidr::IpCidr::V6(c)) => Some(
            CidrParts { is_v6: true, octets: c.first_address().octets().to_vec(), prefix_len: c.network_length() },
        ),
        Err(_) => None,
    }
}

/// How an `INET` text reads: the parts `cidr` reads, else `DecodeError::Inet`.
pub open spec fn inet_reading(s: Seq<char>) -> Result<InetParts, DecodeError> {
    match cidr_inet_parse(s) {
        Some(p) => Ok(p),
        None => Err(DecodeError::Inet),
    }
}

/// How a `CIDR` text reads: the parts `cidr` reads, else `DecodeError::Cidr`.
pub open spec fn cidr_reading(s: Seq<char>) -> Result<CidrParts, DecodeError> {
    match cidr_cidr_parse(s) {
        Some(p) => Ok(p),
        None => Err(DecodeError::Cidr),
    }
}

/// The reading of a nullable text column: `None` for `NULL`, else what
/// `read` makes of the text.
pub open spec fn read_nullable_column<T>(
    fields: Seq<Field>,
    offset: usize,
    read: spec_fn(Seq<char>) -> Result<T, DecodeError>,
) -> Result<Option<T>, DecodeError> {
    match spec_field_at(fields, offset) {
        Err(e) => Err(e),
        Ok(f) => if spec_is_null(f) {
            Ok(None)
        } else {
            match string_of(f) {
                Err(e) => Err(e),
                Ok(s) => match read(s) {
                    Ok(v) => Ok(Some(v)),
                    Err(e) => Err(e),
                },
            }
        },
    }
}

/// Reads an `INET` column.
pub fn inet_at(row: &Row, offset: usize) -> (res: Result<InetParts, DecodeError>)
    ensures
        res == read_column(row.spec_fields(), offset, |s: Seq<char>| inet_reading(s)),
{
    let s = expect_string(field_at(row, offset)?)?;
    match parse_inet(s) {
        Some(p) => Ok(p),
        None => Err(DecodeError::Inet),
    }
}

/// Reads a nullable `INET` column.
pub fn opt_inet_at(row: &Row, offset: usize) -> (res: Result<Option<InetParts>, DecodeError>)
    ensures
        res == read_nullable_column(row.spec_fields(), offset, |s: Seq<char>| inet_reading(s)),
{
    let field = field_at(row, offset)?;
    if field_is_null(field) {
        return Ok(None);
    }
    let s = expect_string(field)?;
    match parse_inet(s) {
        Some(p) => Ok(Some(p)),
        None => Err(DecodeError::Inet),
    }
}

/// Reads a `CIDR` column.
pub fn cidr_at(row: &Row, offset: usize) -> (res: Result<CidrParts, DecodeError>)
    ensures
        res == read_column(row.spec_fields(), offset, |s: Seq<char>| cidr_reading(s)),
{
    let s = expect_string(field_at(row, offset)?)?;
    match parse_cidr(s) {
        Some(p) => Ok(p),
        None => Err(DecodeError::Cidr),
    }
}

/// Reads a nullable `CIDR` column.
pub fn opt_cidr_at(row: &Row, offset: usize) -> (res: Result<Option<CidrParts>, DecodeError>)
    ensures
        res == read_nullable_column(row.spec_fields(), offset, |s: Seq<char>| cidr_reading(s)),
{
    let field = field_at(row, offset)?;
    if field_is_null(field) {
        return Ok(None);
    }
    let s = expect_string(field)?;
    match parse_cidr(s) {
        Some(p) => Ok(Some(p)),
        None => Err(DecodeError::Cidr),
    }
}

} // verus!
