use vstd::prelude::*;

verus! {

/// The launcher's configuration: the ordered project roots to scan (each may
/// start with `~`) and the editor command run on the confirmed selection.
#[derive(Debug)]
pub struct Config {
    pub project_dirs: Vec<String>,
    pub editor_command: String,
}

impl Default for Config {
    /// The defaults used when no configuration file exists: one root,
    /// `~/Projects`, opened with `nvim`.
    fn default() -> (c: Config)
        ensures
            c.project_dirs@.len() == 1,
            c.project_dirs@[0]@ == "~/Projects"@,
            c.editor_command@ == "nvim"@,
    {
        let mut project_dirs: Vec<String> = Vec::new();
        project_dirs.push(String::from_str("~/Projects"));
        Config { project_dirs, editor_command: String::from_str("nvim") }
    }
}

} // verus!
