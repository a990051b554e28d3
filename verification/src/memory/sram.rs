//! Battery-backed save memory.

use vstd::prelude::*;

verus! {

pub struct SaveRam {
    pub data: Vec<u8>,
    pub size: usize,
    pub enabled: bool,
    pub write_protect: bool,
    pub dirty: bool,
    pub file_path: Option<String>,
}

impl SaveRam {
    /// The cell that an address selects: addresses wrap at the size.
    pub open spec fn cell_of(&self, addr: u32) -> int {
        addr as int % self.size as int
    }

    /// The memory answers at `addr`: it is switched on, not empty, and
    /// holds the cell.
    pub open spec fn answers(&self, addr: u32) -> bool {
        self.enabled && self.size > 0 && self.cell_of(addr) < self.data@.len()
    }

    /// The memory has changes that a save would write out.
    pub open spec fn wants_save(&self) -> bool {
        self.dirty && self.enabled && !self.write_protect && self.file_path is Some
    }

    /// A memory of `size` zero bytes, switched off.
    pub fn new(size: usize) -> (r: Self)
        ensures
            r.data@ == Seq::new(size as nat, |i: int| 0u8),
            r.size == size,
            !r.enabled,
            !r.write_protect,
            !r.dirty,
            r.file_path is None,
    {
        let data: Vec<u8> = vec![0u8; size];
        assert(data@ =~= Seq::new(size as nat, |i: int| 0u8));
        SaveRam { data, size, enabled: false, write_protect: false, dirty: false, file_path: None }
    }

    /// Whether the memory is due to be written to its file.
    pub fn auto_save(&self) -> (due: bool)
        ensures
            due == self.wants_save(),
    {
        self.dirty && self.enabled && !self.write_protect && self.file_path.is_some()
    }

    /// Records that the memory was written to `path`.
    pub fn mark_saved(&mut self, path: String)
        ensures
            *final(self) == (SaveRam { file_path: Some(path), dirty: false, ..*old(self) }),
    {
        self.file_path = Some(path);
        self.dirty = false;
    }

    /// Takes the contents read from `path` as the memory's own.
    pub fn mark_loaded(&mut self, contents: Vec<u8>, path: String)
        ensures
            *final(self) == (SaveRam { data: contents, file_path: Some(path), dirty: false, ..*old(self) }),
    {
        self.data = contents;
        self.file_path = Some(path);
        self.dirty = false;
    }

    /// Reads a byte. A memory that does not answer reads as 0xFF.
    pub fn read_byte(&self, addr: u32) -> (r: u8)
        ensures
            r == (if self.answers(addr) {
                self.data@[self.cell_of(addr)]
            } else {
                0xFFu8
            }),
    {
        if self.enabled && self.size > 0 {
            let cell: usize = (addr as usize) % self.size;
            if cell < self.data.len() {
                return self.data[cell];
            }
        }
        0xFF
    }

    /// Writes a byte and marks the memory dirty. A memory that does not
    /// answer, or is write-protected, ignores the write.
    pub fn write_byte(&mut self, addr: u32, value: u8)
        ensures
            old(self).answers(addr) && !old(self).write_protect ==> *final(self) == (SaveRam {
                data: final(self).data,
                dirty: true,
                ..*old(self)
            }) && final(self).data@ == old(self).data@.update(old(self).cell_of(addr), value),
            !(old(self).answers(addr) && !old(self).write_protect) ==> *final(self) == *old(self),
    {
        if self.enabled && !self.write_protect && self.size > 0 {
            let cell: usize = (addr as usize) % self.size;
            if cell < self.data.len() {
                self.data[cell] = value;
                self.dirty = true;
            }
        }
    }

    pub fn set_enabled(&mut self, enabled: bool)
        ensures
            *final(self) == (SaveRam { enabled, ..*old(self) }),
    {
        self.enabled = enabled;
    }

    pub fn set_write_protect(&mut self, protect: bool)
        ensures
            *final(self) == (SaveRam { write_protect: protect, ..*old(self) }),
    {
        self.write_protect = protect;
    }
}

} // verus!
