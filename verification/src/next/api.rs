//! The plain argument structures the public entry points take.

use vstd::prelude::*;

use crate::next::config::opt_str_view;

verus! {

/// The arguments of the secret command.
#[derive(Debug)]
pub struct SecretArguments {
    pub key: String,
    pub service: Option<String>,
    pub prompt: Option<String>,
}

pub ghost struct SecretArgumentsV {
    pub key: Seq<char>,
    pub service: Option<Seq<char>>,
    pub prompt: Option<Seq<char>>,
}

impl View for SecretArguments {
    type V = SecretArgumentsV;

    open spec fn view(&self) -> SecretArgumentsV {
        SecretArgumentsV {
            key: self.key@,
            service: opt_str_view(self.service),
            prompt: opt_str_view(self.prompt),
        }
    }
}

} // verus!
