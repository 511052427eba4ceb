//! The messages exchanged with the identity service.

use vstd::prelude::*;

verus! {

/// The texts of a list of strings, in order.
pub open spec fn texts(items: Seq<String>) -> Seq<Seq<char>> {
    items.map_values(|s: String| s@)
}

/// A request to make sure that an identity has a home directory.
#[derive(Clone, Debug, PartialEq, Eq)]
pub struct HomeDirectoryInfo {
    /// The canonical directory name.
    pub name: String,
    /// The owning group, which is the owning user as well.
    pub gid: u32,
    /// Other names that lead to the same directory.
    pub aliases: Vec<String>,
}

/// The mathematical content of a `HomeDirectoryInfo`.
pub struct HomeDirectoryModel {
    pub name: Seq<char>,
    pub gid: u32,
    pub aliases: Seq<Seq<char>>,
}

impl View for HomeDirectoryInfo {
    type V = HomeDirectoryModel;

    open spec fn view(&self) -> HomeDirectoryModel {
        HomeDirectoryModel { name: self.name@, gid: self.gid, aliases: texts(self.aliases@) }
    }
}

/// A unit of privileged work asked for by the identity service.
#[derive(Clone, Debug, PartialEq, Eq)]
pub enum TaskRequest {
    HomeDirectory(HomeDirectoryInfo),
}

/// The answer to one request.
#[derive(Clone, Debug, PartialEq, Eq)]
pub enum TaskResponse {
    Success,
    Error(String),
}

/// The mathematical content of a `TaskResponse`.
pub enum ResponseModel {
    Success,
    Error(Seq<char>),
}

impl View for TaskResponse {
    type V = ResponseModel;

    open spec fn view(&self) -> ResponseModel {
        match self {
            TaskResponse::Success => ResponseModel::Success,
            TaskResponse::Error(message) => ResponseModel::Error(message@),
        }
    }
}

/// The answer owed for the outcome of a provisioning run.
pub open spec fn response_model(failure: Option<Seq<char>>) -> ResponseModel {
    match failure {
        None => ResponseModel::Success,
        Some(message) => ResponseModel::Error(message),
    }
}

/// Turns the outcome of a provisioning run into the answer for the peer:
/// success as `Success`, a failure as `Error` with its message unchanged.
pub fn response_for(outcome: Result<(), String>) -> (response: TaskResponse)
    ensures
        response@ == response_model(
            match outcome {
                Ok(_) => None,
                Err(message) => Some(message@),
            },
        ),
{
    match outcome {
        Ok(_) => TaskResponse::Success,
        Err(message) => TaskResponse::Error(message),
    }
}

} // verus!
