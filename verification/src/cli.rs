use vstd::prelude::*;

verus! {

/// Options of the command that starts a chat session.
#[derive(Debug)]
pub struct ChatOptions {
    pub path: String,
    pub verbose: bool,
    pub no_color: bool,
}

/// Options of the command that initializes a navigator.
#[derive(Debug)]
pub struct InitOptions {
    pub name: String,
    pub pack: Option<String>,
    pub pack_file: Option<String>,
    pub server: Option<String>,
    pub from: Option<String>,
    pub in_place: bool,
    pub force: bool,
    pub quiet: bool,
    pub quick: bool,
    pub no_color: bool,
}

/// Options of the command that installs navigator skills.
#[derive(Debug)]
pub struct InstallOptions {
    pub path: String,
    pub force: bool,
    pub quiet: bool,
    pub no_color: bool,
}

/// Options of the command that uninstalls navigator skills.
#[derive(Debug)]
pub struct UninstallOptions {
    pub path: String,
    pub quiet: bool,
    pub no_color: bool,
}

/// Options of the command that sends an update request.
#[derive(Debug)]
pub struct UpdateOptions {
    pub path: String,
    pub message: String,
    pub timeout: String,
    pub verbose: bool,
}

} // verus!
