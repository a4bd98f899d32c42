//! A host record: one container's hostname with its address on the network.

use vstd::prelude::*;
use vstd::string::*;
use crate::constants::IP_COLUMN_WIDTH;

verus! {

/// A hostname and the IP address it resolves to.
///
/// A record made by [`DockerHost::new`] has a non-empty IP address.
#[derive(Debug, Clone, PartialEq, Eq)]
pub struct DockerHost {
    pub hostname: String,
    pub ip_address: String,
}

/// What a [`DockerHost`] stands for: its two fields as character sequences.
pub struct HostRecord {
    pub hostname: Seq<char>,
    pub ip_address: Seq<char>,
}

/// The blanks that follow an IP address of `used` characters: enough to fill
/// the address column, and none once the address is as wide as the column.
pub open spec fn column_padding(used: nat) -> Seq<char> {
    Seq::new(
        if used < IP_COLUMN_WIDTH {
            (IP_COLUMN_WIDTH - used) as nat
        } else {
            0
        },
        |i: int| ' ',
    )
}

/// The record that two optional fields give: none unless both are present
/// and the address is non-empty, and then a record that holds them unchanged.
pub open spec fn construct(
    hostname: Option<Seq<char>>,
    ip_address: Option<Seq<char>>,
) -> Option<HostRecord> {
    match (hostname, ip_address) {
        (Some(hostname), Some(ip_address)) if ip_address.len() > 0 => Some(
            HostRecord { hostname, ip_address },
        ),
        _ => None,
    }
}

impl HostRecord {
    /// The record as a line of the hosts file: the address, left-justified in
    /// its column and never cut short, then the hostname.
    pub open spec fn file_line(self) -> Seq<char> {
        self.ip_address + column_padding(self.ip_address.len()) + self.hostname
    }

    /// The record as it is shown in a log.
    pub open spec fn summary(self) -> Seq<char> {
        "host: "@ + self.hostname + ", ip: "@ + self.ip_address
    }
}

impl View for DockerHost {
    type V = HostRecord;

    open spec fn view(&self) -> HostRecord {
        HostRecord { hostname: self.hostname@, ip_address: self.ip_address@ }
    }
}

impl DeepView for DockerHost {
    type V = HostRecord;

    open spec fn deep_view(&self) -> HostRecord {
        self@
    }
}

impl DockerHost {
    /// A record is well formed when its IP address is not empty.
    pub open spec fn well_formed(&self) -> bool {
        self.ip_address@.len() > 0
    }

    /// Makes a record from fields that may be missing.
    ///
    /// There is no record when either field is missing or the IP address is
    /// empty. Otherwise the record holds the very strings that were given.
    pub fn new(hostname: Option<String>, ip_address: Option<String>) -> (record: Option<Self>)
        ensures
            record.deep_view() == construct(hostname.deep_view(), ip_address.deep_view()),
            record is Some <==> hostname is Some && ip_address is Some
                && ip_address.unwrap()@.len() > 0,
            record matches Some(r) ==> r.hostname == hostname.unwrap() && r.ip_address
                == ip_address.unwrap() && r.well_formed(),
    {
        let hostname = match hostname {
            Some(val) => val,
            None => return None,
        };
        let ip_address = match ip_address {
            Some(val) => val,
            None => return None,
        };
        if ip_address.as_str().is_empty() {
            return None;
        }
        Some(Self { hostname, ip_address })
    }

    /// The line of the hosts file that maps the hostname to the address.
    pub fn into_file_line(&self) -> (line: String)
        ensures
            line@ == self@.file_line(),
    {
        let mut line = self.ip_address.clone();
        let width = self.ip_address.as_str().unicode_len();
        let mut column: usize = width;
        while column < IP_COLUMN_WIDTH
            invariant
                width == self.ip_address@.len(),
                width <= column,
                column <= IP_COLUMN_WIDTH || column == width,
                line@ == self.ip_address@ + Seq::new((column - width) as nat, |i: int| ' '),
            decreases IP_COLUMN_WIDTH - column,
        {
            proof {
                reveal_strlit(" ");
            }
            line.append(" ");
            column = column + 1;
        }
        line.append(self.hostname.as_str());
        line
    }

    /// The record as one line of a log: both fields, each under its name.
    pub fn summary(&self) -> (text: String)
        ensures
            text@ == self@.summary(),
    {
        let mut text = String::from_str("host: ");
        text.append(self.hostname.as_str());
        text.append(", ip: ");
        text.append(self.ip_address.as_str());
        text
    }
}

} // verus!
