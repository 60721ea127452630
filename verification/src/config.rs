//! Connection parameters and the two named points.
//!
//! The configuration value is threaded through calls explicitly; how
//! it is persisted (a file, a wire, anything) is the caller's concern.
//! Only the point store — reading and writing the points named "a" and
//! "b" — carries protocol-relevant logic, and that logic is verified
//! here.

use vstd::prelude::*;

use crate::error::{ConfigError, ConfigErrorType};

verus! {

/// Robot identity, connection parameters, and the two named points.
#[derive(Clone, Debug)]
pub struct Config {
    pub name: String,
    pub manufacturer: String,
    pub robot_address: String,
    pub robot_port: String,
    pub point_a_x: i32,
    pub point_a_y: i32,
    pub point_b_x: i32,
    pub point_b_y: i32,
}

/// Whether two string slices hold the same characters.
fn str_eq(a: &str, b: &str) -> (r: bool)
    ensures
        r == (a@ == b@),
{
    let left: String = a.to_owned();
    let right: String = b.to_owned();
    left == right
}

/// The point-store interface consumed by the protocol engine: fetch
/// and store named 2-D points.
pub trait ConfigHandler: Sized {
    /// The point stored under a name, if the name is a known one.
    spec fn spec_get_point(&self, name: Seq<char>) -> Option<(i32, i32)>;

    /// What a freshly made configuration guarantees.
    spec fn new_ensures(c: Self) -> bool;

    fn new() -> (c: Self)
        ensures
            Self::new_ensures(c),
    ;

    /// Stores a point under a name. A name the store does not know is
    /// ignored, successfully.
    fn set_point(&mut self, name: &str, x: i32, y: i32) -> (r: Result<(), ConfigError>)
        ensures
            r is Ok,
            final(self).spec_get_point(name@) == (if old(self).spec_get_point(name@) is Some {
                Some((x, y))
            } else {
                None::<(i32, i32)>
            }),
            forall|other: Seq<char>|
                other != name@ ==> final(self).spec_get_point(other) == old(self).spec_get_point(
                    other,
                ),
    ;

    /// Fetches the point stored under a name; a name the store does
    /// not know fails with `Read`.
    fn get_point(&mut self, name: &str) -> (r: Result<(i32, i32), ConfigError>)
        ensures
            *final(self) == *old(self),
            match old(self).spec_get_point(name@) {
                Some(p) => r == Ok::<(i32, i32), ConfigError>(p),
                None => r matches Err(e) && e.err_type == ConfigErrorType::Read,
            },
    ;
}

impl ConfigHandler for Config {
    /// The stored points: "a" and "b", nothing else.
    open spec fn spec_get_point(&self, name: Seq<char>) -> Option<(i32, i32)> {
        if name == "a"@ {
            Some((self.point_a_x, self.point_a_y))
        } else if name == "b"@ {
            Some((self.point_b_x, self.point_b_y))
        } else {
            None
        }
    }

    /// Fresh configurations hold empty strings and zeroed points.
    open spec fn new_ensures(c: Self) -> bool {
        &&& c.name@ == Seq::<char>::empty()
        &&& c.manufacturer@ == Seq::<char>::empty()
        &&& c.robot_address@ == Seq::<char>::empty()
        &&& c.robot_port@ == Seq::<char>::empty()
        &&& c.point_a_x == 0 && c.point_a_y == 0
        &&& c.point_b_x == 0 && c.point_b_y == 0
    }

    fn new() -> (c: Self) {
        Config {
            name: String::new(),
            manufacturer: String::new(),
            robot_address: String::new(),
            robot_port: String::new(),
            point_a_x: 0,
            point_a_y: 0,
            point_b_x: 0,
            point_b_y: 0,
        }
    }

    fn set_point(&mut self, name: &str, x: i32, y: i32) -> (r: Result<(), ConfigError>) {
        if str_eq(name, "a") {
            self.point_a_x = x;
            self.point_a_y = y;
        } else if str_eq(name, "b") {
            self.point_b_x = x;
            self.point_b_y = y;
        }
        Ok(())
    }

    fn get_point(&mut self, name: &str) -> (r: Result<(i32, i32), ConfigError>) {
        if str_eq(name, "a") {
            Ok((self.point_a_x, self.point_a_y))
        } else if str_eq(name, "b") {
            Ok((self.point_b_x, self.point_b_y))
        } else {
            Err(ConfigError { err_type: ConfigErrorType::Read })
        }
    }
}

} // verus!
