//! The properties of a game, as its properties file sets them.

use vstd::prelude::*;
use crate::world::any_seed;

verus! {

/// The game's properties.
#[derive(Debug)]
pub struct GameProperties {
    /// RPC port the server binds to, default is 1337.
    pub rpc_port: u32,
    /// Tick increment per frame, default is 1.
    pub tick_speed: u32,
    /// Seed of the world.
    pub seed: i64,
}

/// Why there are no properties.
#[derive(Debug)]
pub enum GamePropertiesError {
    /// The properties file is there and is not written over.
    AlreadyExists,
    /// The file could not be read or written; the words are the system's.
    FileError(String),
    /// The file does not hold properties; the words are the parser's.
    ParsingError(String),
}

impl Default for GameProperties {
    /// The default properties: port 1337, one step for each tick, and a seed
    /// of the world's own.
    fn default() -> (properties: Self)
        ensures
            properties.rpc_port == 1337,
            properties.tick_speed == 1,
    {
        Self { rpc_port: 1337, tick_speed: 1, seed: any_seed() }
    }
}

impl GamePropertiesError {
    /// What is said of the error.
    pub open spec fn message_spec(&self) -> Seq<char> {
        match self {
            GamePropertiesError::AlreadyExists => "Properties file already exists"@,
            GamePropertiesError::FileError(message) => message@,
            GamePropertiesError::ParsingError(message) => message@,
        }
    }

    /// What is said of the error: that the file exists already, or else the
    /// words that came with the error.
    pub fn message(&self) -> (message: String)
        ensures
            message@ == self.message_spec(),
    {
        match self {
            GamePropertiesError::AlreadyExists => "Properties file already exists".to_owned(),
            GamePropertiesError::FileError(message) => message.clone(),
            GamePropertiesError::ParsingError(message) => message.clone(),
        }
    }
}

impl GameProperties {
    /// The default properties, to be written to the properties file, unless
    /// the file `exists` already.
    pub fn generate_default_config(exists: bool) -> (config: Result<Self, GamePropertiesError>)
        ensures
            exists ==> config is Err && config->Err_0 is AlreadyExists,
            !exists ==> config is Ok && config->Ok_0.rpc_port == 1337 && config->Ok_0.tick_speed
                == 1,
    {
        if exists {
            Err(GamePropertiesError::AlreadyExists)
        } else {
            Ok(GameProperties::default())
        }
    }
}

} // verus!
