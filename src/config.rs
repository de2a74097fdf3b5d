use vstd::prelude::*;

verus! {

/// Message returned when no root directory was given.
pub const USAGE: &'static str = "Usage: json-file-walker root_dir";

/// Command-line settings: the directory to walk.
pub struct Config {
    pub root_dir: String,
}

impl Config {
    /// Reads the settings from the program's arguments, the first of which is
    /// the program name. The second argument is the root directory; any further
    /// arguments are ignored.
    pub fn new(args: Vec<String>) -> (r: Result<Config, &'static str>)
        ensures
            args@.len() >= 2 <==> r is Ok,
            r matches Ok(c) ==> c.root_dir@ == args@[1]@,
            r matches Err(e) ==> e@ == USAGE@,
    {
        let mut args = args;
        if args.len() < 2 {
            return Err(USAGE);
        }
        let root_dir = args.remove(1);
        Ok(Config { root_dir })
    }
}

} // verus!
