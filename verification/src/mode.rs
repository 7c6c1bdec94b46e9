//! The two ways in which the application takes keys: it navigates, or it
//! collects a line of text for one of three purposes.

use vstd::prelude::*;

verus! {

/// What a line of text is collected for.
#[derive(Debug, Clone, Copy, PartialEq, Eq, Structural)]
pub enum InputType {
    Permission,
    CopyFile,
    ChangeDir,
}

/// How the application takes keys.
#[derive(Debug, Clone, Copy, PartialEq, Eq, Structural)]
pub enum AppMode {
    Nav,
    Input(InputType),
}

/// The prompt that goes with each purpose.
pub open spec fn prompt_text(kind: InputType) -> Seq<char> {
    match kind {
        InputType::ChangeDir => "Enter destination directory"@,
        InputType::CopyFile => "Enter target"@,
        InputType::Permission => "Enter permission string from --------- to rwxrwxrwx"@,
    }
}

impl InputType {
    /// The prompt to show while text for this purpose is collected.
    pub fn message(&self) -> (prompt: &'static str)
        ensures
            prompt@ == prompt_text(*self),
    {
        match self {
            InputType::ChangeDir => "Enter destination directory",
            InputType::CopyFile => "Enter target",
            InputType::Permission => "Enter permission string from --------- to rwxrwxrwx",
        }
    }
}

impl Default for AppMode {
    /// The application starts out navigating.
    fn default() -> (mode: Self)
        ensures
            mode == AppMode::Nav,
    {
        AppMode::Nav
    }
}

} // verus!
