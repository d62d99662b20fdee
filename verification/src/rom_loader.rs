use vstd::prelude::*;

verus! {

/// Declares `std::io::Error` so that `RomLoadError` can carry it. The type is
/// opaque here and nothing is claimed about its values or methods.
#[verifier::external_type_specification]
#[verifier::external_body]
pub struct ExIoError(std::io::Error);

/// Why a ROM could not be loaded.
#[derive(Debug)]
pub enum RomLoadError {
    /// No file at the given path; holds the path or the system's message.
    FileNotFound(String),
    /// Reading the file failed.
    IoError(std::io::Error),
    /// The file holds no bytes.
    EmptyRom,
}

/// Accepts the bytes read from a ROM file: an empty ROM is refused with
/// `EmptyRom`, any other is handed back unchanged.
pub fn validate_rom(rom: Vec<u8>) -> (result: Result<Vec<u8>, RomLoadError>)
    ensures
        rom@.len() == 0 <==> result matches Err(RomLoadError::EmptyRom),
        rom@.len() != 0 <==> (result matches Ok(bytes) && bytes@ == rom@),
{
    if rom.len() == 0 {
        return Err(RomLoadError::EmptyRom);
    }
    Ok(rom)
}

} // verus!
