use vstd::prelude::*;
use crate::name_table::NameTable;

verus! {

/// Looks up settings among the environment variables of the process.
///
/// The variables themselves (the process environment, with those of a `.env` file added) are
/// read elsewhere and handed in as a table from variable name to value.
pub struct EnvDetector;

impl EnvDetector {
    /// The value of the variable `key`, if it is set.
    pub fn get_var(vars: &NameTable<String>, key: &str) -> (value: Option<String>)
        ensures
            match value {
                Some(v) => vars@.contains_key(key@) && v@ == vars@[key@]@,
                None => !vars@.contains_key(key@),
            },
    {
        match vars.get(key) {
            Some(v) => Some(v.clone()),
            None => None,
        }
    }

    /// The value of `HOST`, if it is set.
    pub fn get_host(vars: &NameTable<String>) -> (value: Option<String>)
        ensures
            match value {
                Some(v) => vars@.contains_key("HOST"@) && v@ == vars@["HOST"@]@,
                None => !vars@.contains_key("HOST"@),
            },
    {
        Self::get_var(vars, "HOST")
    }

    /// The value of `PORT`, if it is set.
    pub fn get_port(vars: &NameTable<String>) -> (value: Option<String>)
        ensures
            match value {
                Some(v) => vars@.contains_key("PORT"@) && v@ == vars@["PORT"@]@,
                None => !vars@.contains_key("PORT"@),
            },
    {
        Self::get_var(vars, "PORT")
    }
}

} // verus!
