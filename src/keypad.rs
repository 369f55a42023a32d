use vstd::prelude::*;

verus! {

/// Level-based state of the 16 keys, written by the host and read by the
/// interpreter.
pub struct Keypad {
    pub keys: [bool; 16],
}

impl View for Keypad {
    type V = Seq<bool>;

    open spec fn view(&self) -> Seq<bool> {
        self.keys@
    }
}

impl Keypad {
    /// A keypad with every key released.
    pub fn new() -> (r: Keypad)
        ensures
            r@ == Seq::new(16, |k: int| false),
    {
        let r = Keypad { keys: [false; 16] };
        assert(r@ =~= Seq::new(16, |k: int| false));
        r
    }

    /// Marks key `index` as pressed.
    pub fn key_down(&mut self, index: u8)
        requires
            index < 16,
        ensures
            final(self)@ == old(self)@.update(index as int, true),
    {
        self.keys[index as usize] = true;
    }

    /// Marks key `index` as released.
    pub fn key_up(&mut self, index: u8)
        requires
            index < 16,
        ensures
            final(self)@ == old(self)@.update(index as int, false),
    {
        self.keys[index as usize] = false;
    }

    /// Whether key `index` is pressed.
    pub fn is_key_down(&self, index: u8) -> (r: bool)
        requires
            index < 16,
        ensures
            r == self@[index as int],
    {
        self.keys[index as usize]
    }
}

} // verus!
