//! The ways in which keeping the hosts file in step can fail.

use vstd::prelude::*;

verus! {

/// A failure of the synchronization, with the text that describes it where
/// it came from outside.
#[derive(Debug, Clone, PartialEq, Eq)]
pub enum Error {
    /// A query to the container runtime failed.
    Docker(String),
    /// Write access to the hosts file could not be obtained.
    Sudo(String),
    /// No network was named; these are the ones to choose from.
    NetworkNotSelect(Vec<String>),
    /// The network that was named is not among the runtime's networks.
    NetworkInvalidChoice { selected_network: String, networks: Vec<String> },
    /// The hosts file could not be read.
    ReadFile(String),
    /// The hosts file could not be written.
    WriteFile(String),
}

/// What an [`Error`] stands for.
pub enum ErrorView {
    Docker(Seq<char>),
    Sudo(Seq<char>),
    NetworkNotSelect(Seq<Seq<char>>),
    NetworkInvalidChoice { selected_network: Seq<char>, networks: Seq<Seq<char>> },
    ReadFile(Seq<char>),
    WriteFile(Seq<char>),
}

impl View for Error {
    type V = ErrorView;

    open spec fn view(&self) -> ErrorView {
        match self {
            Error::Docker(message) => ErrorView::Docker(message@),
            Error::Sudo(message) => ErrorView::Sudo(message@),
            Error::NetworkNotSelect(networks) => ErrorView::NetworkNotSelect(
                networks.deep_view(),
            ),
            Error::NetworkInvalidChoice { selected_network, networks } => {
                ErrorView::NetworkInvalidChoice {
                    selected_network: selected_network@,
                    networks: networks.deep_view(),
                }
            },
            Error::ReadFile(message) => ErrorView::ReadFile(message@),
            Error::WriteFile(message) => ErrorView::WriteFile(message@),
        }
    }
}

impl DeepView for Error {
    type V = ErrorView;

    open spec fn deep_view(&self) -> ErrorView {
        self@
    }
}

} // verus!
