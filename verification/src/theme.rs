//! The built-in colour themes that ship with the viewer.  Each name refers to
//! a theme file the host bundles as a resource; loading a theme's JSON is the
//! host's business.

use vstd::prelude::*;

verus! {

/// The file names (without extension) of the built-in themes, in their fixed
/// presentation order.
pub fn builtin_theme_names() -> (names: Vec<String>)
    ensures
        names@.len() == 10,
        names@[0]@ == "sakura"@,
        names@[1]@ == "himawari"@,
        names@[2]@ == "ajisai"@,
        names@[3]@ == "momiji"@,
        names@[4]@ == "ume"@,
        names@[5]@ == "tsubaki"@,
        names@[6]@ == "tanpopo"@,
        names@[7]@ == "fuji"@,
        names@[8]@ == "nadeshiko"@,
        names@[9]@ == "asagao"@,
{
    let mut names: Vec<String> = Vec::new();
    names.push("sakura".to_owned());
    names.push("himawari".to_owned());
    names.push("ajisai".to_owned());
    names.push("momiji".to_owned());
    names.push("ume".to_owned());
    names.push("tsubaki".to_owned());
    names.push("tanpopo".to_owned());
    names.push("fuji".to_owned());
    names.push("nadeshiko".to_owned());
    names.push("asagao".to_owned());
    names
}

} // verus!
