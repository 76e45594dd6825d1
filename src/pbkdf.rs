use vstd::prelude::*;
use crate::text::same_text;
use crate::LibsodiumError;

verus! {

/// The one parallelism degree the backend supports.
pub const PARALLELISM: u64 = 1;

/// Smallest derived key for both Argon2 variants.
pub const OUTPUT_LEN_MIN: usize = 16;
/// Largest derived key (and longest password) for both Argon2 variants.
pub const LEN_MAX: usize = 4294967295;
/// The fixed salt length of both Argon2 variants.
pub const SALT_LEN: usize = 16;
/// Largest CPU cost of both Argon2 variants.
pub const CPU_COST_MAX: u64 = 4294967295;
/// Smallest memory cost of both Argon2 variants.
pub const MEMORY_COST_MIN: u64 = 8192;

/// PBKDF implementations
#[derive(Debug, Clone, Copy, PartialEq, Eq, Structural)]
pub enum Pbkdfs {
    /// Argon2i v1.3
    Argon2iV13,
    /// Argon2id v1.3
    Argon2idV13,
}

/// The bounds of the memory-hardness parameters.
#[derive(Debug, Clone, Copy, PartialEq, Eq)]
pub struct MemoryHardPbkdfInfo {
    pub memory_cost: u64,
    pub memory_cost_min: u64,
    pub memory_cost_max: u64,
    pub parallelism: u64,
    pub parallelism_min: u64,
    pub parallelism_max: u64,
}

/// The bounds of a PBKDF's parameters, with its defaults.
#[derive(Debug, Clone, Copy, PartialEq, Eq)]
pub struct PbkdfInfo {
    pub name: &'static str,
    pub output_len_min: usize,
    pub output_len_max: usize,
    pub password_len_min: usize,
    pub password_len_max: usize,
    pub salt_len_min: usize,
    pub salt_len_max: usize,
    pub cpu_cost: u64,
    pub cpu_cost_min: u64,
    pub cpu_cost_max: u64,
    pub memory_hard_pbkdf_info: Option<MemoryHardPbkdfInfo>,
}

/// The largest memory cost the backend accepts on this machine: it depends on
/// the width of `usize`.
pub open spec fn memory_cost_max() -> u64 {
    if usize::MAX >= 4398046510080 {
        4398046510080
    } else if usize::MAX >= 2147483648 {
        2147483648
    } else {
        32768
    }
}

/// What a lookup by name yields: the PBKDF registered under exactly that name.
pub open spec fn pbkdf_from_name(name: Seq<char>) -> Result<Pbkdfs, LibsodiumError> {
    if name == "Argon2iV13"@ {
        Ok(Pbkdfs::Argon2iV13)
    } else if name == "Argon2idV13"@ {
        Ok(Pbkdfs::Argon2idV13)
    } else {
        Err(LibsodiumError::Unsupported)
    }
}

/// The declared descriptor of a PBKDF.
pub open spec fn pbkdf_info(p: Pbkdfs) -> PbkdfInfo {
    PbkdfInfo {
        name: match p {
            Pbkdfs::Argon2iV13 => "Argon2iV13",
            Pbkdfs::Argon2idV13 => "Argon2idV13",
        },
        output_len_min: OUTPUT_LEN_MIN,
        output_len_max: LEN_MAX,
        password_len_min: 0,
        password_len_max: LEN_MAX,
        salt_len_min: SALT_LEN,
        salt_len_max: SALT_LEN,
        cpu_cost: match p {
            Pbkdfs::Argon2iV13 => 8,
            Pbkdfs::Argon2idV13 => 4,
        },
        cpu_cost_min: match p {
            Pbkdfs::Argon2iV13 => 3,
            Pbkdfs::Argon2idV13 => 1,
        },
        cpu_cost_max: CPU_COST_MAX,
        memory_hard_pbkdf_info: Some(
            MemoryHardPbkdfInfo {
                memory_cost: match p {
                    Pbkdfs::Argon2iV13 => 536870912,
                    Pbkdfs::Argon2idV13 => 1073741824,
                },
                memory_cost_min: MEMORY_COST_MIN,
                memory_cost_max: memory_cost_max(),
                parallelism: PARALLELISM,
                parallelism_min: PARALLELISM,
                parallelism_max: PARALLELISM,
            },
        ),
    }
}

fn memory_cost_max_exec() -> (r: u64)
    ensures
        r == memory_cost_max(),
{
    if usize::MAX as u64 >= 4398046510080 {
        4398046510080
    } else if usize::MAX as u64 >= 2147483648 {
        2147483648
    } else {
        32768
    }
}


/// The key derivation a validated request asks the backend for: `output_len`
/// bytes into the caller's buffer, from its password and salt.
#[derive(Debug, Clone, Copy, PartialEq, Eq)]
pub struct DeriveCall {
    pub pbkdf: Pbkdfs,
    pub output_len: usize,
    pub cpu_cost: u64,
    pub memory_cost: usize,
}

/// Checks every parameter against the descriptor's bounds, in the order
/// output length, password length, salt length, CPU cost, memory cost,
/// parallelism; each bound has its own error.
pub open spec fn derive_check(
    info: PbkdfInfo,
    output_len: nat,
    password_len: nat,
    salt_len: nat,
    cpu_cost: u64,
    memory_cost: u64,
    parallelism: u64,
) -> Result<(), LibsodiumError> {
    let mh = info.memory_hard_pbkdf_info->Some_0;
    if output_len < info.output_len_min {
        Err(LibsodiumError::ApiMisuse("Buffer is too small"))
    } else if output_len > info.output_len_max {
        Err(LibsodiumError::ApiMisuse("Buffer is too large"))
    } else if password_len < info.password_len_min {
        Err(LibsodiumError::ApiMisuse("Password is too short"))
    } else if password_len > info.password_len_max {
        Err(LibsodiumError::ApiMisuse("Password is too long"))
    } else if salt_len < info.salt_len_min {
        Err(LibsodiumError::ApiMisuse("Salt is too short"))
    } else if salt_len > info.salt_len_max {
        Err(LibsodiumError::ApiMisuse("Salt is too long"))
    } else if cpu_cost < info.cpu_cost_min {
        Err(LibsodiumError::ApiMisuse("CPU cost is too small"))
    } else if cpu_cost > info.cpu_cost_max {
        Err(LibsodiumError::ApiMisuse("CPU cost is too large"))
    } else if memory_cost < mh.memory_cost_min {
        Err(LibsodiumError::ApiMisuse("Memory cost is too small"))
    } else if memory_cost > mh.memory_cost_max {
        Err(LibsodiumError::ApiMisuse("Memory cost is too large"))
    } else if parallelism < mh.parallelism_min {
        Err(LibsodiumError::ApiMisuse("Parallelism-degree is too small"))
    } else if parallelism > mh.parallelism_max {
        Err(LibsodiumError::ApiMisuse("Parallelism-degree is too large"))
    } else {
        Ok(())
    }
}

/// The outcome of validating a derivation with PBKDF `p`.
pub open spec fn derive_request(
    p: Pbkdfs,
    output_len: nat,
    password_len: nat,
    salt_len: nat,
    cpu_cost: u64,
    memory_cost: u64,
    parallelism: u64,
) -> Result<DeriveCall, LibsodiumError> {
    match derive_check(pbkdf_info(p), output_len, password_len, salt_len, cpu_cost, memory_cost, parallelism) {
        Err(e) => Err(e),
        Ok(()) => Ok(
            DeriveCall {
                pbkdf: p,
                output_len: output_len as usize,
                cpu_cost,
                memory_cost: memory_cost as usize,
            },
        ),
    }
}

/// What a derivation returns once the backend reported `status`: success,
/// or a resource error for the two allocation failures; `None` for any other
/// status, which validation rules out and which leaves the output untrusted.
pub open spec fn derive_outcome(status: i32) -> Option<Result<(), LibsodiumError>> {
    if status == 0 {
        Some(Ok(()))
    } else if status == -22 || status == -33 {
        Some(Err(LibsodiumError::ResourceError))
    } else {
        None
    }
}

fn info_of(p: Pbkdfs) -> (r: PbkdfInfo)
    ensures
        r == pbkdf_info(p),
{
    let argon2i = p == Pbkdfs::Argon2iV13;
    PbkdfInfo {
        name: if argon2i { "Argon2iV13" } else { "Argon2idV13" },
        output_len_min: OUTPUT_LEN_MIN,
        output_len_max: LEN_MAX,
        password_len_min: 0,
        password_len_max: LEN_MAX,
        salt_len_min: SALT_LEN,
        salt_len_max: SALT_LEN,
        cpu_cost: if argon2i { 8 } else { 4 },
        cpu_cost_min: if argon2i { 3 } else { 1 },
        cpu_cost_max: CPU_COST_MAX,
        memory_hard_pbkdf_info: Some(
            MemoryHardPbkdfInfo {
                memory_cost: if argon2i { 536870912 } else { 1073741824 },
                memory_cost_min: MEMORY_COST_MIN,
                memory_cost_max: memory_cost_max_exec(),
                parallelism: PARALLELISM,
                parallelism_min: PARALLELISM,
                parallelism_max: PARALLELISM,
            },
        ),
    }
}

impl DeriveCall {
    /// Maps the backend's status for this derivation to the operation's result.
    pub fn finish(self, status: i32) -> (r: Option<Result<(), LibsodiumError>>)
        ensures
            r == derive_outcome(status),
    {
        if status == 0 {
            Some(Ok(()))
        } else if status == -22 || status == -33 {
            Some(Err(LibsodiumError::ResourceError))
        } else {
            None
        }
    }
}

/// A handle with the `Pbkdf` and `MemoryHardPbkdf` capabilities.
#[derive(Debug, Clone, Copy, PartialEq, Eq)]
pub struct PbkdfHandle {
    pub pbkdf: Pbkdfs,
}

impl PbkdfHandle {
    /// The descriptor of this PBKDF.
    pub fn info(&self) -> (r: PbkdfInfo)
        ensures
            r == pbkdf_info(self.pbkdf),
    {
        info_of(self.pbkdf)
    }

    /// Validates a derivation into `buf` with the default memory cost and
    /// parallelism.
    pub fn derive(&self, buf: &[u8], password: &[u8], salt: &[u8], cpu_cost: u64) -> (r: Result<DeriveCall, LibsodiumError>)
        ensures
            r == derive_request(
                self.pbkdf,
                buf@.len(),
                password@.len(),
                salt@.len(),
                cpu_cost,
                pbkdf_info(self.pbkdf).memory_hard_pbkdf_info->Some_0.memory_cost,
                pbkdf_info(self.pbkdf).memory_hard_pbkdf_info->Some_0.parallelism,
            ),
    {
        let info = info_of(self.pbkdf);
        match info.memory_hard_pbkdf_info {
            Some(mh) => self.derive_memory_hard(buf, password, salt, cpu_cost, mh.memory_cost, mh.parallelism),
            None => Err(LibsodiumError::Unsupported),
        }
    }

    /// Validates a derivation into `buf` with explicit memory cost and
    /// parallelism.
    pub fn derive_memory_hard(
        &self,
        buf: &[u8],
        password: &[u8],
        salt: &[u8],
        cpu_cost: u64,
        memory_cost: u64,
        parallelism: u64,
    ) -> (r: Result<DeriveCall, LibsodiumError>)
        ensures
            r == derive_request(self.pbkdf, buf@.len(), password@.len(), salt@.len(), cpu_cost, memory_cost, parallelism),
            r is Ok ==> r->Ok_0.memory_cost == memory_cost && r->Ok_0.output_len == buf@.len(),
    {
        let info = info_of(self.pbkdf);
        if buf.len() < info.output_len_min {
            return Err(LibsodiumError::ApiMisuse("Buffer is too small"));
        }
        if buf.len() > info.output_len_max {
            return Err(LibsodiumError::ApiMisuse("Buffer is too large"));
        }
        if password.len() < info.password_len_min {
            return Err(LibsodiumError::ApiMisuse("Password is too short"));
        }
        if password.len() > info.password_len_max {
            return Err(LibsodiumError::ApiMisuse("Password is too long"));
        }
        if salt.len() < info.salt_len_min {
            return Err(LibsodiumError::ApiMisuse("Salt is too short"));
        }
        if salt.len() > info.salt_len_max {
            return Err(LibsodiumError::ApiMisuse("Salt is too long"));
        }
        if cpu_cost < info.cpu_cost_min {
            return Err(LibsodiumError::ApiMisuse("CPU cost is too small"));
        }
        if cpu_cost > info.cpu_cost_max {
            return Err(LibsodiumError::ApiMisuse("CPU cost is too large"));
        }
        let mh = match info.memory_hard_pbkdf_info {
            Some(mh) => mh,
            None => {
                return Err(LibsodiumError::Unsupported);
            },
        };
        if memory_cost < mh.memory_cost_min {
            return Err(LibsodiumError::ApiMisuse("Memory cost is too small"));
        }
        if memory_cost > mh.memory_cost_max {
            return Err(LibsodiumError::ApiMisuse("Memory cost is too large"));
        }
        if parallelism < mh.parallelism_min {
            return Err(LibsodiumError::ApiMisuse("Parallelism-degree is too small"));
        }
        if parallelism > mh.parallelism_max {
            return Err(LibsodiumError::ApiMisuse("Parallelism-degree is too large"));
        }
        Ok(DeriveCall { pbkdf: self.pbkdf, output_len: buf.len(), cpu_cost, memory_cost: memory_cost as usize })
    }
}

impl Pbkdfs {
    /// Selects a PBKDF implementation from name
    ///
    /// Currently supported names are:
    ///  - `Argon2iV13` which maps to Argon2i v1.3
    ///  - `Argon2idV13` which maps to Argon2id v1.3
    pub fn from_name(name: &str) -> (r: Result<Self, LibsodiumError>)
        ensures
            r == pbkdf_from_name(name@),
    {
        if same_text(name, "Argon2iV13") {
            Ok(Pbkdfs::Argon2iV13)
        } else if same_text(name, "Argon2idV13") {
            Ok(Pbkdfs::Argon2idV13)
        } else {
            Err(LibsodiumError::Unsupported)
        }
    }

    /// Creates a handle with the `Pbkdf` capability for this PBKDF.
    pub fn pbkdf(self) -> (r: PbkdfHandle)
        ensures
            r.pbkdf == self,
    {
        PbkdfHandle { pbkdf: self }
    }

    /// Creates a handle with the `MemoryHardPbkdf` capability; every
    /// supported PBKDF has it.
    pub fn memory_hard_pkdf(self) -> (r: Result<PbkdfHandle, LibsodiumError>)
        ensures
            r == Ok::<PbkdfHandle, LibsodiumError>(PbkdfHandle { pbkdf: self }),
    {
        Ok(PbkdfHandle { pbkdf: self })
    }
}

} // verus!
