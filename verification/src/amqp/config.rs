//! Settings of the message entry point.

use vstd::prelude::*;

verus! {

/// Where the broker is reached.
#[derive(Debug)]
pub struct Config {
    pub amqp_addr: String,
}

/// Builds the settings from the broker's address. They are built once,
/// when the process starts, and handed to whoever needs them.
pub fn get_config(amqp_addr: String) -> (config: Config)
    ensures
        config.amqp_addr == amqp_addr,
{
    Config { amqp_addr }
}

impl Clone for Config {
    fn clone(&self) -> (copy: Self)
        ensures
            copy.amqp_addr@ == self.amqp_addr@,
    {
        Config { amqp_addr: self.amqp_addr.clone() }
    }
}

} // verus!
