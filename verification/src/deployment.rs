//! Finding deployments for the management commands.
//!
//! A deployment is looked up by one string that may be the name of its
//! database namespace, its hash, or a part of a subgraph name. The rules
//! that tell these apart, the layout of the table that lists what was
//! found, and the choice of the one location of a hash live here. Queries
//! and printing are left to the caller.

use crate::counter::{decimal, decimal_text};
use vstd::prelude::*;
use vstd::string::StringExecFns;

verus! {

/// One row of the deployment listing.
#[derive(Clone, PartialEq, Eq, Hash, Debug)]
pub struct Deployment {
    pub name: String,
    pub status: String,
    pub deployment: String,
    pub namespace: String,
    pub node_id: Option<String>,
    pub shard: String,
    pub chain: String,
}

/// The bytes of `sgd`, with which the name of every namespace begins.
pub open spec fn namespace_prefix() -> Seq<u8> {
    seq![0x73u8, 0x67u8, 0x64u8]
}

/// The bytes of `Qm`, with which every deployment hash begins.
pub open spec fn hash_prefix() -> Seq<u8> {
    seq![0x51u8, 0x6du8]
}

/// Whether `text` begins with `prefix`.
pub open spec fn starts_with(text: Seq<u8>, prefix: Seq<u8>) -> bool {
    prefix.len() <= text.len() && text.subrange(0, prefix.len() as int) == prefix
}

/// The column that a lookup filters on, with the value to filter by.
#[derive(Clone, PartialEq, Eq, Debug)]
pub enum LookupFilter {
    /// The namespace is the string looked up.
    Namespace(String),
    /// The deployment hash is the string looked up.
    Hash(String),
    /// The subgraph name matches the pattern, whatever the case of its
    /// letters.
    NamePattern(String),
}

/// Tells what a string that a deployment is looked up by stands for: a
/// namespace if it begins with `sgd`, else a hash if it begins with `Qm`,
/// else a part of a subgraph name, which may stand anywhere in the name.
pub fn lookup_filter(name: String) -> (filter: LookupFilter)
    ensures
        match filter {
            LookupFilter::Namespace(namespace) => {
                &&& starts_with(vstd::utf8::encode_utf8(name@), namespace_prefix())
                &&& namespace == name
            },
            LookupFilter::Hash(hash) => {
                &&& !starts_with(vstd::utf8::encode_utf8(name@), namespace_prefix())
                &&& starts_with(vstd::utf8::encode_utf8(name@), hash_prefix())
                &&& hash == name
            },
            LookupFilter::NamePattern(pattern) => {
                &&& !starts_with(vstd::utf8::encode_utf8(name@), namespace_prefix())
                &&& !starts_with(vstd::utf8::encode_utf8(name@), hash_prefix())
                &&& pattern@ == "%"@ + name@ + "%"@
            },
        },
{
    let bytes = name.as_str().as_bytes();
    let is_namespace = bytes.len() >= 3 && bytes[0] == 0x73 && bytes[1] == 0x67 && bytes[2]
        == 0x64;
    let is_hash = bytes.len() >= 2 && bytes[0] == 0x51 && bytes[1] == 0x6d;
    proof {
        let text = vstd::utf8::encode_utf8(name@);
        if is_namespace {
            assert(text.subrange(0, 3) =~= namespace_prefix());
        } else if text.len() >= 3 {
            assert(text.subrange(0, 3)[0] == text[0]);
            assert(text.subrange(0, 3)[1] == text[1]);
            assert(text.subrange(0, 3)[2] == text[2]);
        }
        if is_hash {
            assert(text.subrange(0, 2) =~= hash_prefix());
        } else if text.len() >= 2 {
            assert(text.subrange(0, 2)[0] == text[0]);
            assert(text.subrange(0, 2)[1] == text[1]);
        }
    }
    if is_namespace {
        LookupFilter::Namespace(name)
    } else if is_hash {
        LookupFilter::Hash(name)
    } else {
        let mut pattern = String::from_str("%");
        pattern.append(name.as_str());
        pattern.append("%");
        LookupFilter::NamePattern(pattern)
    }
}

/// The headings of the deployment listing, from left to right.
pub fn table_header() -> (header: Vec<&'static str>)
    ensures
        header@ == seq!["name", "status", "id", "namespace", "shard", "chain", "node_id"],
{
    let mut header: Vec<&'static str> = Vec::new();
    header.push("name");
    header.push("status");
    header.push("id");
    header.push("namespace");
    header.push("shard");
    header.push("chain");
    header.push("node_id");
    assert(header@ =~= seq!["name", "status", "id", "namespace", "shard", "chain", "node_id"]);
    header
}

/// The cells of one row of the deployment listing, in the order of the
/// headings. A deployment that is assigned to no node shows `---`.
pub fn table_row(deployment: Deployment) -> (row: Vec<String>)
    ensures
        row@.len() == 7,
        row@[0] == deployment.name,
        row@[1] == deployment.status,
        row@[2] == deployment.deployment,
        row@[3] == deployment.namespace,
        row@[4] == deployment.shard,
        row@[5] == deployment.chain,
        match deployment.node_id {
            Some(node) => row@[6] == node,
            None => row@[6]@ == "---"@,
        },
{
    let mut row: Vec<String> = Vec::new();
    row.push(deployment.name);
    row.push(deployment.status);
    row.push(deployment.deployment);
    row.push(deployment.namespace);
    row.push(deployment.shard);
    row.push(deployment.chain);
    match deployment.node_id {
        Some(node) => row.push(node),
        None => row.push(String::from_str("---")),
    }
    row
}

/// Why a deployment hash could not be located.
#[derive(Copy, Clone, PartialEq, Eq, Structural, Debug)]
pub enum LocateError {
    /// The hash is assigned nowhere.
    NoMatch,
    /// The hash is found in `count` places, and no shard was named to
    /// choose among them.
    Ambiguous { count: usize },
    /// The hash is not found in the shard that was named.
    NotInShard,
    /// The string that was given is no deployment hash.
    IllegalHash,
}

/// The one location of a hash that was looked up in every shard: the only
/// one that was found, or the reason why there is no such one.
pub fn locate_unique<T>(locators: Vec<T>) -> (located: Result<T, LocateError>)
    ensures
        locators@.len() == 0 ==> located == Err::<T, LocateError>(LocateError::NoMatch),
        locators@.len() == 1 ==> located == Ok::<T, LocateError>(locators@[0]),
        locators@.len() > 1 ==> located == Err::<T, LocateError>(
            LocateError::Ambiguous { count: locators@.len() as usize },
        ),
{
    let mut locators = locators;
    let count = locators.len();
    if count == 0 {
        Err(LocateError::NoMatch)
    } else if count == 1 {
        match locators.pop() {
            Some(only) => Ok(only),
            None => Err(LocateError::NoMatch),
        }
    } else {
        Err(LocateError::Ambiguous { count })
    }
}

/// The location of a hash that was looked up in one shard.
pub fn locate_in_shard<T>(found: Option<T>) -> (located: Result<T, LocateError>)
    ensures
        located == match found {
            Some(locator) => Ok::<T, LocateError>(locator),
            None => Err::<T, LocateError>(LocateError::NotInShard),
        },
{
    match found {
        Some(locator) => Ok(locator),
        None => Err(LocateError::NotInShard),
    }
}

impl LocateError {
    /// What is shown for this failure to locate `hash`, in `shard` where
    /// one was named.
    pub open spec fn spec_message(self, hash: Seq<char>, shard: Seq<char>) -> Seq<char> {
        match self {
            LocateError::NoMatch => "no matching assignment"@,
            LocateError::Ambiguous { count } => "deployment hash `"@ + hash + "` is ambiguous: "@
                + decimal(count as nat) + " locations found"@,
            LocateError::NotInShard => "no deployment with hash `"@ + hash + "` in shard "@
                + shard,
            LocateError::IllegalHash => "illegal deployment hash `"@ + hash + "`"@,
        }
    }

    /// What is shown for this failure to locate `hash`, in `shard` where
    /// one was named.
    pub fn message(self, hash: &str, shard: &str) -> (text: String)
        ensures
            text@ == self.spec_message(hash@, shard@),
    {
        match self {
            LocateError::NoMatch => String::from_str("no matching assignment"),
            LocateError::Ambiguous { count } => {
                let mut text = String::from_str("deployment hash `");
                text.append(hash);
                text.append("` is ambiguous: ");
                text.append(decimal_text(count as u64).as_str());
                text.append(" locations found");
                text
            },
            LocateError::NotInShard => {
                let mut text = String::from_str("no deployment with hash `");
                text.append(hash);
                text.append("` in shard ");
                text.append(shard);
                text
            },
            LocateError::IllegalHash => {
                let mut text = String::from_str("illegal deployment hash `");
                text.append(hash);
                text.append("`");
                text
            },
        }
    }
}

} // verus!
