//! The configuration of the plugin, which the host stores as bytes.
//!
//! The host reads the buffer in two calls, first for its length and then for
//! the bytes, and writes it in one.  The plugin reads and writes the same
//! buffer in its own encoding; an empty buffer means that nothing was saved.

use vstd::prelude::*;
use vstd::slice::slice_to_vec;

use super::error::Error;

verus! {

/// The most bytes that a configuration can hold: the host counts them with a
/// signed integer.
pub const MAX_CONFIG_LEN: usize = 0x7fff_ffff;

/// The configuration buffer of the process.
#[derive(Debug)]
pub struct ConfigBuffer {
    data: Vec<u8>,
}

/// What the host is handed when it reads the configuration.
#[derive(Debug)]
pub enum ConfigRead<'a> {
    /// The length of the buffer; nothing is copied.
    Size(i32),
    /// The bytes to copy into the destination of the host.
    Copy(&'a Vec<u8>),
}

impl<'a> ConfigRead<'a> {
    /// The number of bytes that the read reports to the host.
    pub open spec fn spec_count(self) -> int {
        match self {
            ConfigRead::Size(len) => len as int,
            ConfigRead::Copy(bytes) => bytes@.len() as int,
        }
    }

    /// The bytes that the read copies to the host.
    pub open spec fn spec_copied(self) -> Option<Seq<u8>> {
        match self {
            ConfigRead::Size(_) => None,
            ConfigRead::Copy(bytes) => Some(bytes@),
        }
    }

    /// The number of bytes that the read reports to the host.
    pub fn count(&self) -> (count: i32)
        requires
            self.spec_count() <= MAX_CONFIG_LEN,
        ensures
            count == self.spec_count(),
    {
        match self {
            ConfigRead::Size(len) => *len,
            ConfigRead::Copy(bytes) => bytes.len() as i32,
        }
    }
}

/// What the plugin finds in a buffer that holds `buffer`: nothing where the
/// buffer is empty, else the bytes.
pub open spec fn stored_config(buffer: Seq<u8>) -> Option<Seq<u8>> {
    if buffer.len() == 0 {
        None
    } else {
        Some(buffer)
    }
}

/// What a buffer that holds `buffer` holds after `bytes` were written to it:
/// the bytes written, unless they are more than a buffer takes.
pub open spec fn written_config(buffer: Seq<u8>, bytes: Seq<u8>) -> Seq<u8> {
    if bytes.len() <= MAX_CONFIG_LEN {
        bytes
    } else {
        buffer
    }
}

impl View for ConfigBuffer {
    type V = Seq<u8>;

    closed spec fn view(&self) -> Seq<u8> {
        self.data@
    }
}

impl ConfigBuffer {
    #[verifier::type_invariant]
    closed spec fn inv(self) -> bool {
        self.data@.len() <= MAX_CONFIG_LEN
    }

    /// The buffer of a process that has stored nothing.
    pub fn new() -> (config: Self)
        ensures
            config@ == Seq::<u8>::empty(),
    {
        ConfigBuffer { data: Vec::new() }
    }

    /// The number of bytes in the buffer.
    pub fn len(&self) -> (len: i32)
        ensures
            len == self@.len(),
    {
        proof {
            use_type_invariant(self);
        }
        self.data.len() as i32
    }

    /// Answers a read of the host.
    ///
    /// Without a destination the host asks for the length of the buffer.
    /// With one, of `capacity` bytes, it asks for the bytes, and the
    /// destination has to hold them all.
    pub fn config_get(&self, capacity: Option<i32>) -> (r: Result<ConfigRead<'_>, Error>)
        ensures
            self@.len() <= MAX_CONFIG_LEN,
            capacity is None ==> r == Ok::<ConfigRead, Error>(ConfigRead::Size(self@.len() as i32)),
            capacity is Some && capacity->0 >= self@.len() ==> r is Ok && r->Ok_0.spec_copied()
                == Some(self@),
            capacity is Some && capacity->0 < self@.len() ==> r == Err::<ConfigRead, Error>(
                Error::ConfigTooLarge,
            ),
            r is Ok ==> r->Ok_0.spec_count() == self@.len(),
    {
        proof {
            use_type_invariant(self);
        }
        let len = self.data.len() as i32;
        match capacity {
            None => Ok(ConfigRead::Size(len)),
            Some(size) => {
                if size >= len {
                    Ok(ConfigRead::Copy(&self.data))
                } else {
                    Err(Error::ConfigTooLarge)
                }
            },
        }
    }

    /// Takes a write of the host: the buffer becomes `data`, and the host is
    /// told how many bytes were taken.
    pub fn config_set(&mut self, data: &[u8]) -> (r: Result<i32, Error>)
        ensures
            final(self)@ == written_config(old(self)@, data@),
            data@.len() <= MAX_CONFIG_LEN ==> r == Ok::<i32, Error>(data@.len() as i32),
            data@.len() > MAX_CONFIG_LEN ==> r == Err::<i32, Error>(Error::ConfigTooLong),
    {
        if data.len() > MAX_CONFIG_LEN {
            return Err(Error::ConfigTooLong);
        }
        *self = ConfigBuffer { data: slice_to_vec(data) };
        Ok(data.len() as i32)
    }
}

/// What the plugin has stored: nothing where the buffer is empty, else the
/// bytes of the buffer, which are the plugin's to decode.
pub fn get_config(config: &ConfigBuffer) -> (stored: Option<Vec<u8>>)
    ensures
        stored is Some == stored_config(config@) is Some,
        stored is Some ==> Some(stored->0@) == stored_config(config@),
{
    if config.data.len() == 0 {
        None
    } else {
        Some(config.data.clone())
    }
}

/// Stores `encoded`, a configuration that the plugin has encoded, in place of
/// what the buffer held.
pub fn set_config(config: &mut ConfigBuffer, encoded: Vec<u8>) -> (r: Result<(), Error>)
    ensures
        final(config)@ == written_config(old(config)@, encoded@),
        encoded@.len() <= MAX_CONFIG_LEN ==> r is Ok,
        encoded@.len() > MAX_CONFIG_LEN ==> r == Err::<(), Error>(Error::ConfigTooLong),
{
    if encoded.len() > MAX_CONFIG_LEN {
        return Err(Error::ConfigTooLong);
    }
    *config = ConfigBuffer { data: encoded };
    Ok(())
}

/// What is stored is what is found: whatever the buffer held, once a
/// configuration of at least one byte is stored in it, the plugin finds the
/// bytes of that configuration, and the host is told their number.
pub proof fn lemma_config_round_trip(buffer: Seq<u8>, encoded: Seq<u8>)
    requires
        0 < encoded.len() <= MAX_CONFIG_LEN,
    ensures
        stored_config(written_config(buffer, encoded)) == Some(encoded),
        written_config(buffer, encoded).len() == encoded.len(),
{
}

} // verus!
