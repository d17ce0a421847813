//! The inputs of a run: the byte buffers to translate, and how command-line values are read.

use vstd::prelude::*;

verus! {

/// How a command-line value is taken as input.
#[derive(Clone, Copy, Debug, PartialEq, Eq, Structural)]
pub enum ReadMode {
    /// The value names a file whose contents are one input.
    FileName,
    /// The value itself, as UTF-8 bytes, is one input.
    StdIn,
}

/// What an [`Input`] holds: the buffers in the order they were added, and the read mode.
pub struct InputView {
    pub streams: Seq<Seq<u8>>,
    pub read_mode: ReadMode,
}

/// The buffers collected for translation.
pub struct Input {
    byte_streams: Vec<Vec<u8>>,
    read_mode: ReadMode,
}

impl View for Input {
    type V = InputView;

    closed spec fn view(&self) -> InputView {
        InputView {
            streams: self.byte_streams@.map_values(|b: Vec<u8>| b@),
            read_mode: self.read_mode,
        }
    }
}

impl Input {
    /// Creates an empty input that reads values as file names.
    pub fn new() -> (r: Input)
        ensures
            r@.streams == Seq::<Seq<u8>>::empty(),
            r@.read_mode == ReadMode::FileName,
    {
        let r = Input { byte_streams: Vec::new(), read_mode: ReadMode::FileName };
        assert(r@.streams =~= Seq::<Seq<u8>>::empty());
        r
    }

    /// Adds one buffer.
    pub fn add_byte_stream(&mut self, bytes: Vec<u8>)
        ensures
            final(self)@.streams == old(self)@.streams.push(bytes@),
            final(self)@.read_mode == old(self)@.read_mode,
    {
        let ghost b = bytes@;
        self.byte_streams.push(bytes);
        assert(self@.streams =~= old(self)@.streams.push(b));
    }

    /// Adds the UTF-8 bytes of `string` as one buffer.
    pub fn add_string_as_byte_stream(&mut self, string: String)
        ensures
            final(self)@.streams == old(self)@.streams.push(vstd::utf8::encode_utf8(string@)),
            final(self)@.read_mode == old(self)@.read_mode,
    {
        let bytes = string.as_str().as_bytes_vec();
        self.add_byte_stream(bytes);
    }

    /// Returns how values are read.
    pub fn read_mode(&self) -> (r: ReadMode)
        ensures
            r == self@.read_mode,
    {
        self.read_mode
    }

    /// Switches between reading values as file names and as literal text.
    pub fn switch_read_mode(&mut self)
        ensures
            final(self)@.streams == old(self)@.streams,
            final(self)@.read_mode == match old(self)@.read_mode {
                ReadMode::FileName => ReadMode::StdIn,
                ReadMode::StdIn => ReadMode::FileName,
            },
    {
        match self.read_mode {
            ReadMode::FileName => {
                self.read_mode = ReadMode::StdIn;
            },
            ReadMode::StdIn => {
                self.read_mode = ReadMode::FileName;
            },
        }
    }

    /// Takes out the buffer added last, or returns `None` when no buffer is left.
    pub fn get_next_byte_stream(&mut self) -> (r: Option<Vec<u8>>)
        ensures
            final(self)@.read_mode == old(self)@.read_mode,
            old(self)@.streams.len() == 0 ==> (r is None && final(self)@.streams == old(
                self,
            )@.streams),
            old(self)@.streams.len() > 0 ==> (r matches Some(b) && b@ == old(
                self,
            )@.streams.last() && final(self)@.streams == old(self)@.streams.drop_last()),
    {
        let r = self.byte_streams.pop();
        assert(self@.streams =~= old(self)@.streams.take(self@.streams.len() as int));
        r
    }
}

} // verus!
