//! The layout of NOAA's public object store for GOES data: which bucket
//! holds a satellite, under which key prefix an hour lives, and which file
//! name an object key stands for.
//!
//! Nothing here talks to the store. A client lists and fetches objects and
//! hands keys, status codes and bytes to these functions.

use crate::error::GoesArchError;
use crate::path::{signed_decimal, signed_decimal_string, zero_pad, zero_padded};
use crate::product::Product;
use crate::satellite::Satellite;
use crate::timestamp::{civil_hour, civil_ordinal, civil_year, Timestamp};
use vstd::prelude::*;
use vstd::string::*;

verus! {

/// The name of the bucket that holds a satellite's data.
pub open spec fn bucket_of(sat: Satellite) -> Seq<char> {
    match sat {
        Satellite::GOES16 => "noaa-goes16"@,
        Satellite::GOES17 => "noaa-goes17"@,
        Satellite::GOES18 => "noaa-goes18"@,
    }
}

/// The key prefix `<product>/<year>/<day-of-year>/<hour>/` under which the
/// objects of one hour are stored.
pub open spec fn storage_prefix(product: Seq<char>, year: int, ordinal: nat, hour: nat) -> Seq<char> {
    product + seq!['/'] + signed_decimal(year) + seq!['/'] + zero_padded(ordinal, 3) + seq!['/']
        + zero_padded(hour, 2) + seq!['/']
}

/// The key prefix of the objects of `product` for the hour that holds the
/// instant `hour`.
pub open spec fn hour_prefix(product: Product, hour: int) -> Seq<char> {
    storage_prefix(
        product.token(),
        civil_year(hour),
        civil_ordinal(hour) as nat,
        civil_hour(hour) as nat,
    )
}

/// Whether `at` is the position of the last `/` of `key`.
pub open spec fn is_last_slash(key: Seq<char>, at: int) -> bool {
    &&& 0 <= at < key.len()
    &&& key[at] == '/'
    &&& forall|j: int| at < j < key.len() ==> key[j] != '/'
}

/// The file name an object key stands for: what follows its last `/`.
/// A key without any `/` names no file.
pub open spec fn key_file_name(key: Seq<char>) -> Option<Seq<char>> {
    if exists|at: int| is_last_slash(key, at) {
        let at = choose|at: int| is_last_slash(key, at);
        Some(key.subrange(at + 1, key.len() as int))
    } else {
        None
    }
}

/// [`key_file_name`] as a function value.
pub open spec fn key_file_name_fn() -> spec_fn(Seq<char>) -> Option<Seq<char>> {
    |key: Seq<char>| key_file_name(key)
}

/// The file names that a listing of object keys stands for, in listing
/// order; keys that name no file are left out.
pub open spec fn key_file_names(keys: Seq<Seq<char>>) -> Seq<Seq<char>> {
    keys.filter_map(key_file_name_fn())
}

/// The outcome of a download that ended with an HTTP status code: the
/// bytes where the status is 200, an error otherwise.
pub open spec fn download_is_good(code: u16) -> bool {
    code == 200
}

/// The message of the error for a download that did not end in status 200.
pub open spec fn download_error_message() -> Seq<char> {
    "Download error"@
}

/// A key has at most one last `/`.
pub proof fn lemma_last_slash_unique(key: Seq<char>, a: int, b: int)
    requires
        is_last_slash(key, a),
        is_last_slash(key, b),
    ensures
        a == b,
{
}

/// The name of the bucket that holds a satellite's data.
pub fn bucket_name(sat: Satellite) -> (name: &'static str)
    ensures
        name@ == bucket_of(sat),
{
    match sat {
        Satellite::GOES16 => "noaa-goes16",
        Satellite::GOES17 => "noaa-goes17",
        Satellite::GOES18 => "noaa-goes18",
    }
}

/// Writes the key prefix `<product>/<year>/<day-of-year>/<hour>/`.
pub fn object_prefix(product: &str, year: i32, ordinal: u32, hour: u32) -> (prefix: String)
    ensures
        prefix@ == storage_prefix(product@, year as int, ordinal as nat, hour as nat),
{
    proof {
        reveal_strlit("/");
    }
    let mut prefix: String = String::from_str(product);
    prefix.append("/");
    let year_text: String = signed_decimal_string(year);
    prefix.append(year_text.as_str());
    prefix.append("/");
    let day_text: String = zero_pad(ordinal, 3);
    prefix.append(day_text.as_str());
    prefix.append("/");
    let hour_text: String = zero_pad(hour, 2);
    prefix.append(hour_text.as_str());
    prefix.append("/");
    prefix
}

/// Writes the key prefix of the objects of `prod` for the hour that holds
/// `valid_hour`.
pub fn storage_location(prod: Product, valid_hour: Timestamp) -> (prefix: String)
    ensures
        prefix@ == hour_prefix(prod, valid_hour@),
{
    object_prefix(prod.remote_token(), valid_hour.year(), valid_hour.ordinal(), valid_hour.hour())
}

/// The key of the object called `remote_path` under `prefix`.
pub fn object_key(prefix: &str, remote_path: &str) -> (key: String)
    ensures
        key@ == prefix@ + remote_path@,
{
    let mut key: String = String::from_str(prefix);
    key.append(remote_path);
    key
}

/// The file name an object key stands for.
pub fn file_name_of_key(key: &str) -> (name: Option<String>)
    ensures
        match name {
            Some(n) => key_file_name(key@) == Some(n@),
            None => key_file_name(key@) is None,
        },
{
    let len: usize = key.unicode_len();
    let mut last: Option<usize> = None;
    let mut n: usize = 0;
    for c in it: key.chars()
        invariant
            it.seq() == key@,
            n == it.index(),
            len == key@.len(),
            match last {
                Some(i) => i < n && key@[i as int] == '/' && forall|j: int|
                    i < j < n ==> key@[j] != '/',
                None => forall|j: int| 0 <= j < n ==> key@[j] != '/',
            },
    {
        if c == '/' {
            last = Some(n);
        }
        n = n + 1;
    }
    match last {
        Some(i) => {
            assert(is_last_slash(key@, i as int));
            proof {
                let chosen = choose|at: int| is_last_slash(key@, at);
                lemma_last_slash_unique(key@, chosen, i as int);
            }
            Some(String::from_str(key.substring_char(i + 1, len)))
        },
        None => None,
    }
}

/// The file names that a listing of object keys stands for, in listing
/// order.
pub fn file_names_of_keys(keys: &Vec<String>) -> (names: Vec<String>)
    ensures
        names.deep_view() == key_file_names(keys.deep_view()),
{
    let ghost all = keys.deep_view();
    let mut names: Vec<String> = Vec::new();
    let mut i: usize = 0;
    proof {
        reveal(Seq::filter_map);
    }
    while i < keys.len()
        invariant
            i <= keys.len(),
            all == keys.deep_view(),
            names.deep_view() == key_file_names(all.take(i as int)),
        decreases keys.len() - i,
    {
        proof {
            all.lemma_filter_map_take_succ(key_file_name_fn(), i as int);
        }
        if let Some(name) = file_name_of_key(keys[i].as_str()) {
            names.push(name);
        }
        i += 1;
    }
    assert(all.take(i as int) =~= all);
    names
}

/// The bytes of a download that ended with the status `code`: they are
/// good only where the status is 200.
pub fn checked_download(code: u16, data: Vec<u8>) -> (bytes: Result<Vec<u8>, GoesArchError>)
    ensures
        bytes is Ok <==> download_is_good(code),
        bytes matches Ok(b) ==> b == data,
        bytes matches Err(err) ==> err@ == download_error_message(),
{
    if code != 200 {
        return Err(GoesArchError::new("Download error"));
    }
    Ok(data)
}

} // verus!
