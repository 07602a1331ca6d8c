use vstd::prelude::*;

verus! {

/// How to start an external program.
#[derive(Debug, Clone)]
pub struct LaunchConfiguration {
    pub path: String,
    pub arguments: Vec<String>,
    /// Whether the patcher closes once the program has started; each program
    /// has its own default.
    pub exit_on_success: Option<bool>,
}

#[derive(Debug, Clone)]
pub struct WindowConfiguration {
    pub width: i32,
    pub height: i32,
    pub resizable: bool,
}

#[derive(Debug, Clone)]
pub struct WebConfiguration {
    pub index_url: String,
}

/// The part of the patcher's configuration that the front end reads.
#[derive(Debug, Clone)]
pub struct PatcherConfiguration {
    pub window: WindowConfiguration,
    pub web: WebConfiguration,
    pub play: LaunchConfiguration,
    pub setup: LaunchConfiguration,
}

} // verus!
