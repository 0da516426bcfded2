//! Names, URLs and protocols of git remotes.

use vstd::prelude::*;
use vstd::std_specs::convert::FromSpecImpl;

use crate::config;

verus! {

/// The name of a git remote, such as `origin`.
#[derive(Debug, PartialEq, Eq)]
pub struct RemoteName(String);

impl View for RemoteName {
    type V = Seq<char>;

    closed spec fn view(&self) -> Seq<char> {
        self.0@
    }
}

impl Clone for RemoteName {
    fn clone(&self) -> (res: Self)
        ensures
            res@ == self@,
    {
        RemoteName(self.0.clone())
    }
}

impl RemoteName {
    /// The remote name that `new` makes of `s`.
    pub closed spec fn spec_new(s: String) -> Self {
        RemoteName(s)
    }

    pub broadcast proof fn lemma_spec_new_view(s: String)
        ensures
            (#[trigger] Self::spec_new(s))@ == s@,
    {
    }

    pub fn new(from: String) -> (res: Self)
        ensures
            res == Self::spec_new(from),
            res@ == from@,
    {
        Self(from)
    }

    pub fn new_static(from: &'static str) -> (res: Self)
        ensures
            res@ == from@,
    {
        Self(from.to_owned())
    }

    pub fn as_str(&self) -> (res: &str)
        ensures
            res@ == self@,
    {
        self.0.as_str()
    }

    pub fn into_string(self) -> (res: String)
        ensures
            res@ == self@,
    {
        self.0
    }
}

/// The URL of a git remote.
#[derive(Debug, PartialEq, Eq)]
pub struct RemoteUrl(String);

impl View for RemoteUrl {
    type V = Seq<char>;

    closed spec fn view(&self) -> Seq<char> {
        self.0@
    }
}

impl Clone for RemoteUrl {
    fn clone(&self) -> (res: Self)
        ensures
            res@ == self@,
    {
        RemoteUrl(self.0.clone())
    }
}

impl RemoteUrl {
    /// The remote URL that `new` makes of `s`.
    pub closed spec fn spec_new(s: String) -> Self {
        RemoteUrl(s)
    }

    pub broadcast proof fn lemma_spec_new_view(s: String)
        ensures
            (#[trigger] Self::spec_new(s))@ == s@,
    {
    }

    pub fn new(from: String) -> (res: Self)
        ensures
            res == Self::spec_new(from),
            res@ == from@,
    {
        Self(from)
    }

    pub fn as_str(&self) -> (res: &str)
        ensures
            res@ == self@,
    {
        self.0.as_str()
    }

    pub fn into_string(self) -> (res: String)
        ensures
            res@ == self@,
    {
        self.0
    }
}

/// The protocol through which a remote is reached.
#[derive(Debug, Clone, Copy, PartialEq, Eq, Structural)]
pub enum RemoteType {
    Ssh,
    Https,
    File,
}

/// The protocol that a configured protocol stands for.
pub open spec fn remote_type_from_config(value: config::RemoteType) -> RemoteType {
    match value {
        config::RemoteType::Ssh => RemoteType::Ssh,
        config::RemoteType::Https => RemoteType::Https,
        config::RemoteType::File => RemoteType::File,
    }
}

/// The configured form of a protocol.
pub open spec fn remote_type_to_config(value: RemoteType) -> config::RemoteType {
    match value {
        RemoteType::Ssh => config::RemoteType::Ssh,
        RemoteType::Https => config::RemoteType::Https,
        RemoteType::File => config::RemoteType::File,
    }
}

impl From<config::RemoteType> for RemoteType {
    fn from(value: config::RemoteType) -> Self {
        match value {
            config::RemoteType::Ssh => Self::Ssh,
            config::RemoteType::Https => Self::Https,
            config::RemoteType::File => Self::File,
        }
    }
}

impl FromSpecImpl<config::RemoteType> for RemoteType {
    open spec fn obeys_from_spec() -> bool {
        true
    }

    open spec fn from_spec(value: config::RemoteType) -> Self {
        remote_type_from_config(value)
    }
}

impl From<RemoteType> for config::RemoteType {
    fn from(value: RemoteType) -> Self {
        match value {
            RemoteType::Ssh => Self::Ssh,
            RemoteType::Https => Self::Https,
            RemoteType::File => Self::File,
        }
    }
}

impl FromSpecImpl<RemoteType> for config::RemoteType {
    open spec fn obeys_from_spec() -> bool {
        true
    }

    open spec fn from_spec(value: RemoteType) -> Self {
        remote_type_to_config(value)
    }
}

/// Converting a protocol to its configuration form and back gives it back.
pub proof fn lemma_remote_type_round_trip(t: RemoteType)
    ensures
        remote_type_from_config(remote_type_to_config(t)) == t,
{
}

} // verus!
