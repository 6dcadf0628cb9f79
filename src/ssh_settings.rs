use vstd::prelude::*;

use crate::proxy_pass_to::ConfigError;
use crate::text::{concat3, str_eq};

verus! {

/// How an SSH session authenticates.
pub enum SshAuth {
    Password(String),
    PrivateKey { path: String, passphrase: Option<String> },
    Agent,
}

/// One entry of the `ssh` section of the settings.
pub struct SshConfigSettings {
    pub id: String,
    pub host: String,
    pub port: u16,
    pub user: String,
    pub auth: SshAuth,
}

/// The reference `${id}` that an `ssh:` target uses to name an entry.
pub open spec fn reference_of(id: Seq<char>) -> Seq<char> {
    "${"@ + id + "}"@
}

/// Entry `i` is the first one that `reference` names.
pub open spec fn is_named_config(configs: Seq<SshConfigSettings>, reference: Seq<char>, i: int) -> bool {
    &&& 0 <= i < configs.len()
    &&& reference_of(configs[i].id@) == reference
    &&& forall|j: int| 0 <= j < i ==> reference_of(#[trigger] configs[j].id@) != reference
}

/// Finds the entry that the credentials reference of an `ssh:` target names.
pub fn find_ssh_config(reference: &str, configs: &Vec<SshConfigSettings>) -> (r: Result<
    usize,
    ConfigError,
>)
    ensures
        r matches Ok(i) ==> is_named_config(configs@, reference@, i as int),
        r matches Err(e) ==> e == ConfigError::UnknownSshConfig && forall|j: int|
            0 <= j < configs@.len() ==> reference_of(#[trigger] configs@[j].id@) != reference@,
{
    let mut k: usize = 0;
    while k < configs.len()
        invariant
            k <= configs@.len(),
            forall|j: int| 0 <= j < k ==> reference_of(#[trigger] configs@[j].id@) != reference@,
        decreases configs@.len() - k,
    {
        let named = concat3("${", configs[k].id.as_str(), "}");
        if str_eq(named.as_str(), reference) {
            return Ok(k);
        }
        k = k + 1;
    }
    Err(ConfigError::UnknownSshConfig)
}

} // verus!
