use vstd::prelude::*;

verus! {

/// Number of addressable bytes.
pub const MEMORY_SIZE: usize = 0x10000;

/// The sixty-four kilobytes of memory that the processor addresses.
pub struct MemoryBus {
    memory: [u8; 0x10000],
}

impl View for MemoryBus {
    type V = Seq<u8>;

    /// The bytes at addresses `0` to `0xFFFF`, in order.
    closed spec fn view(&self) -> Seq<u8> {
        self.memory@
    }
}

/// The memory image right after loading `rom`: the ROM at address zero,
/// every other byte zero.
pub open spec fn spec_loaded_memory(rom: Seq<u8>) -> Seq<u8> {
    Seq::new(MEMORY_SIZE as nat, |i: int| if i < rom.len() { rom[i] } else { 0u8 })
}

/// The memory always holds exactly `MEMORY_SIZE` bytes.
pub broadcast proof fn lemma_memory_size(bus: &MemoryBus)
    ensures
        #[trigger] bus@.len() == MEMORY_SIZE,
{
    broadcast use vstd::array::group_array_axioms;

}

impl MemoryBus {
    /// Memory holding `game_rom` from address zero on, zero elsewhere.
    pub fn new(game_rom: Vec<u8>) -> (bus: Self)
        requires
            game_rom.len() <= MEMORY_SIZE,
        ensures
            bus@ == spec_loaded_memory(game_rom@),
    {
        broadcast use vstd::array::group_array_axioms;

        let mut mem = [0u8; 0x10000];
        let mut i: usize = 0;
        while i < game_rom.len()
            invariant
                i <= game_rom.len() <= MEMORY_SIZE,
                mem@.len() == MEMORY_SIZE,
                forall|j: int| 0 <= j < i ==> mem@[j] == game_rom@[j],
                forall|j: int| i <= j < MEMORY_SIZE ==> mem@[j] == 0,
            decreases game_rom.len() - i,
        {
            mem[i] = game_rom[i];
            i = i + 1;
        }
        let bus = MemoryBus { memory: mem };
        assert(bus@ =~= spec_loaded_memory(game_rom@));
        bus
    }

    /// The byte at `address`.
    pub fn read_byte(&self, address: u16) -> (value: u8)
        ensures
            value == self@[address as int],
    {
        broadcast use vstd::array::group_array_axioms;

        self.memory[address as usize]
    }

    /// Stores `value` at `address`; every other byte stays as it was.
    pub fn write_byte(&mut self, address: u16, value: u8)
        ensures
            final(self)@ == old(self)@.update(address as int, value),
    {
        broadcast use vstd::array::group_array_axioms;

        self.memory[address as usize] = value;
    }
}

/// A read returns what the last write to that address stored, and a write
/// leaves every other address unchanged.
pub proof fn lemma_read_after_write(memory: Seq<u8>, address: u16, other: u16, value: u8)
    requires
        memory.len() == MEMORY_SIZE,
    ensures
        memory.update(address as int, value)[address as int] == value,
        other != address ==> memory.update(address as int, value)[other as int]
            == memory[other as int],
        memory.update(address as int, value).len() == MEMORY_SIZE,
{
}

} // verus!
