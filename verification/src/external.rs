//! Outside types that errors of the library carry.
use vstd::prelude::*;

verus! {

/// `std::io::Error`, carried by errors whose cause is a failed read or write.
#[verifier::external_type_specification]
#[verifier::external_body]
pub struct ExIoError(std::io::Error);

/// `serde_yaml::Error`, carried by the error of a project declaration that is not valid YAML.
#[verifier::external_type_specification]
#[verifier::external_body]
pub struct ExYamlError(serde_yaml::Error);

} // verus!
