//! Closed configuration option sets and their native code tables.
//!
//! The engine expects each named option as a small integer code.  The two
//! mapping tables below are the single place where those codes are written
//! down; a code received from outside the known set is rejected with a
//! [`ConfigurationError`] rather than passed through.

use vstd::prelude::*;

use crate::error::ConfigurationError;

verus! {

/// How eagerly the backing storage is paged into memory when a dictionary is
/// opened.  The exact effect of each strategy is owned by the engine.
#[allow(non_camel_case_types)]
#[derive(Clone, Copy, Debug, PartialEq, Eq, Structural)]
pub enum LoadingStrategy {
    default_os,
    lazy,
    populate,
    populate_key_part,
    populate_lazy,
}

/// The codec a match's binary value may be passed through on its way out.
#[allow(non_camel_case_types)]
#[derive(Clone, Copy, Debug, PartialEq, Eq, Structural)]
pub enum Compression {
    NO_COMPRESSION,
    ZLIB_COMPRESSION,
    SNAPPY_COMPRESSION,
    ZSTD_COMPRESSION,
}

/// The native code of a loading strategy.
pub open spec fn spec_loading_strategy_code(s: LoadingStrategy) -> u64 {
    match s {
        LoadingStrategy::default_os => 0,
        LoadingStrategy::lazy => 1,
        LoadingStrategy::populate => 2,
        LoadingStrategy::populate_key_part => 3,
        LoadingStrategy::populate_lazy => 4,
    }
}

/// The loading strategy a native code stands for, if the code is known.
pub open spec fn spec_loading_strategy_of_code(c: u64) -> Option<LoadingStrategy> {
    if c == 0 {
        Some(LoadingStrategy::default_os)
    } else if c == 1 {
        Some(LoadingStrategy::lazy)
    } else if c == 2 {
        Some(LoadingStrategy::populate)
    } else if c == 3 {
        Some(LoadingStrategy::populate_key_part)
    } else if c == 4 {
        Some(LoadingStrategy::populate_lazy)
    } else {
        None
    }
}

/// The native code of a compression codec.
pub open spec fn spec_compression_code(a: Compression) -> u64 {
    match a {
        Compression::NO_COMPRESSION => 0,
        Compression::ZLIB_COMPRESSION => 1,
        Compression::SNAPPY_COMPRESSION => 2,
        Compression::ZSTD_COMPRESSION => 3,
    }
}

/// The compression codec a native code stands for, if the code is known.
pub open spec fn spec_compression_of_code(c: u64) -> Option<Compression> {
    if c == 0 {
        Some(Compression::NO_COMPRESSION)
    } else if c == 1 {
        Some(Compression::ZLIB_COMPRESSION)
    } else if c == 2 {
        Some(Compression::SNAPPY_COMPRESSION)
    } else if c == 3 {
        Some(Compression::ZSTD_COMPRESSION)
    } else {
        None
    }
}

impl LoadingStrategy {
    /// The code handed across the boundary for this strategy.
    pub fn to_code(self) -> (c: u64)
        ensures
            c == spec_loading_strategy_code(self),
    {
        match self {
            LoadingStrategy::default_os => 0,
            LoadingStrategy::lazy => 1,
            LoadingStrategy::populate => 2,
            LoadingStrategy::populate_key_part => 3,
            LoadingStrategy::populate_lazy => 4,
        }
    }

    /// Validates a code received from outside: known codes map back to their
    /// strategy, all others are rejected.
    pub fn from_code(c: u64) -> (r: Result<LoadingStrategy, ConfigurationError>)
        ensures
            match r {
                Ok(s) => spec_loading_strategy_of_code(c) == Some(s),
                Err(e) => spec_loading_strategy_of_code(c) is None && e.code == c,
            },
    {
        if c == 0 {
            Ok(LoadingStrategy::default_os)
        } else if c == 1 {
            Ok(LoadingStrategy::lazy)
        } else if c == 2 {
            Ok(LoadingStrategy::populate)
        } else if c == 3 {
            Ok(LoadingStrategy::populate_key_part)
        } else if c == 4 {
            Ok(LoadingStrategy::populate_lazy)
        } else {
            Err(ConfigurationError { code: c })
        }
    }
}

impl Compression {
    /// The code handed across the boundary for this codec.
    pub fn to_code(self) -> (c: u64)
        ensures
            c == spec_compression_code(self),
    {
        match self {
            Compression::NO_COMPRESSION => 0,
            Compression::ZLIB_COMPRESSION => 1,
            Compression::SNAPPY_COMPRESSION => 2,
            Compression::ZSTD_COMPRESSION => 3,
        }
    }

    /// Validates a code received from outside: known codes map back to their
    /// codec, all others are rejected.
    pub fn from_code(c: u64) -> (r: Result<Compression, ConfigurationError>)
        ensures
            match r {
                Ok(a) => spec_compression_of_code(c) == Some(a),
                Err(e) => spec_compression_of_code(c) is None && e.code == c,
            },
    {
        if c == 0 {
            Ok(Compression::NO_COMPRESSION)
        } else if c == 1 {
            Ok(Compression::ZLIB_COMPRESSION)
        } else if c == 2 {
            Ok(Compression::SNAPPY_COMPRESSION)
        } else if c == 3 {
            Ok(Compression::ZSTD_COMPRESSION)
        } else {
            Err(ConfigurationError { code: c })
        }
    }
}

/// Every strategy's code maps back to the strategy it came from: the table is
/// a closed, unambiguous correspondence.
pub proof fn lemma_loading_strategy_code_round_trip(s: LoadingStrategy)
    ensures
        spec_loading_strategy_of_code(spec_loading_strategy_code(s)) == Some(s),
{
}

/// Every codec's code maps back to the codec it came from: the table is a
/// closed, unambiguous correspondence.
pub proof fn lemma_compression_code_round_trip(a: Compression)
    ensures
        spec_compression_of_code(spec_compression_code(a)) == Some(a),
{
}

/// Two distinct loading strategies never share a native code.
pub proof fn lemma_loading_strategy_code_injective(s1: LoadingStrategy, s2: LoadingStrategy)
    requires
        spec_loading_strategy_code(s1) == spec_loading_strategy_code(s2),
    ensures
        s1 == s2,
{
}

/// Two distinct compression codecs never share a native code.
pub proof fn lemma_compression_code_injective(a1: Compression, a2: Compression)
    requires
        spec_compression_code(a1) == spec_compression_code(a2),
    ensures
        a1 == a2,
{
}

} // verus!
