//! Error codes of the Vita kernel and the conversions of raw return values.
//!
//! The kernel reports failure with a negative error code, success with zero
//! (for calls that return nothing) or with a positive identifier (for calls
//! that create an object). Zero as an identifier, and a positive value where
//! only zero or an error may come back, break the convention.

use vstd::prelude::*;

verus! {

/// The result of a kernel call that may fail with an [`Error`].
pub type Result<T> = core::result::Result<T, Error>;

/// A kernel error: a code that is never zero.
#[derive(Clone, Copy, Debug)]
pub struct Error(i32);

impl View for Error {
    type V = i32;

    open spec fn view(&self) -> i32 {
        self.spec_code()
    }
}

impl Error {
    #[verifier::type_invariant]
    spec fn code_nonzero(self) -> bool {
        self.0 != 0
    }

    /// The code held by the error.
    pub closed spec fn spec_code(self) -> i32 {
        self.0
    }

    /// The error with the given code, which must not be zero.
    pub fn from_raw_os_error(code: i32) -> (e: Error)
        requires
            code != 0,
        ensures
            e@ == code,
    {
        Error(code)
    }

    /// The error with the given code, which the caller knows not to be zero.
    pub fn from_raw_os_error_unchecked(code: i32) -> (e: Error)
        requires
            code != 0,
        ensures
            e@ == code,
    {
        Error(code)
    }

    /// The code held by the error.
    pub fn code(&self) -> (c: i32)
        ensures
            c == self@,
            c != 0,
    {
        proof {
            use_type_invariant(self);
        }
        self.0
    }

    /// The error for a code that a kernel call returned; error codes are
    /// always negative.
    pub fn new(error: i32) -> (e: Error)
        requires
            error < 0,
        ensures
            e@ == error,
    {
        match Error::try_new(error) {
            Ok(e) => e,
            Err(_) => {
                proof {
                    assert(false);
                }
                Error(error)
            },
        }
    }

    /// Splits a nonzero return value: a negative one is an error, a positive
    /// one is handed back as it is.
    pub fn try_new(error: i32) -> (r: core::result::Result<Error, i32>)
        requires
            error != 0,
        ensures
            error < 0 <==> r is Ok,
            r matches Ok(e) ==> e@ == error,
            r matches Err(v) ==> v == error,
    {
        if error < 0 {
            Ok(Error(error))
        } else {
            Err(error)
        }
    }

    /// The code written in decimal, as the error is displayed.
    pub fn to_string(&self) -> (s: String)
        ensures
            s@ == decimal(self@ as int),
    {
        let c = self.code();
        decimal_string(c)
    }
}

/// The decimal digit for `d`, which is below ten.
pub open spec fn digit_char(d: nat) -> char {
    if d == 0 { '0' }
    else if d == 1 { '1' }
    else if d == 2 { '2' }
    else if d == 3 { '3' }
    else if d == 4 { '4' }
    else if d == 5 { '5' }
    else if d == 6 { '6' }
    else if d == 7 { '7' }
    else if d == 8 { '8' }
    else { '9' }
}

/// The decimal digits of `n`, most significant first, without leading zeros
/// (zero itself is the one digit `0`).
pub open spec fn digits(n: nat) -> Seq<char>
    decreases n,
{
    if n < 10 {
        seq![digit_char(n)]
    } else {
        digits(n / 10).push(digit_char(n % 10))
    }
}

/// `n` in decimal, with a leading minus sign when it is negative.
pub open spec fn decimal(n: int) -> Seq<char> {
    if n < 0 {
        seq!['-'] + digits((-n) as nat)
    } else {
        digits(n as nat)
    }
}

/// Formats an integer in decimal with `format!("{}", n)`; std documents
/// that an integer is displayed as its decimal digits, with a leading `-`
/// when negative, and nothing more.
#[verifier::external_body]
fn decimal_string(n: i32) -> (s: String)
    ensures
        s@ == decimal(n as int),
{
    format!("{}", n)
}

/// Reads the return value of a call that creates a kernel object: a positive
/// value identifies the object, a negative one is the error. Zero breaks the
/// convention and is not accepted.
pub fn cvt_p(ret: i32) -> (r: Result<i32>)
    requires
        ret != 0,
    ensures
        ret > 0 <==> r is Ok,
        r matches Ok(id) ==> id == ret,
        r matches Err(e) ==> e@ == ret,
{
    match Error::try_new(ret) {
        Err(ret) => Ok(ret),
        Ok(err) => Err(err),
    }
}

/// Reads the return value of a call that reports only success or failure:
/// zero is success, a negative value is the error. A positive value breaks
/// the convention and is not accepted.
pub fn cvt_nz(error: i32) -> (r: Result<()>)
    requires
        error <= 0,
    ensures
        error == 0 <==> r is Ok,
        r matches Err(e) ==> e@ == error,
{
    if error == 0 {
        Ok(())
    } else {
        Err(Error::new(error))
    }
}

/// How far writing a string of bytes has come, when the file may accept fewer
/// bytes than it is handed at each call.
///
/// Writing goes on while bytes are left. A call that accepts no byte, or
/// claims more bytes than it was handed, ends the writing with an error.
pub struct WriteProgress {
    len: usize,
    written: usize,
}

impl WriteProgress {
    #[verifier::type_invariant]
    spec fn within(self) -> bool {
        self.written <= self.len
    }

    /// The bytes of the whole string.
    pub closed spec fn spec_len(self) -> usize {
        self.len
    }

    /// The bytes that the file has accepted so far, from the start.
    pub closed spec fn spec_written(self) -> usize {
        self.written
    }

    /// Nothing written yet of a string of `len` bytes.
    pub fn new(len: usize) -> (p: WriteProgress)
        ensures
            p.spec_len() == len,
            p.spec_written() == 0,
    {
        WriteProgress { len, written: 0 }
    }

    /// The bytes that the file has accepted so far, from the start.
    pub fn written(&self) -> (w: usize)
        ensures
            w == self.spec_written(),
            w <= self.spec_len(),
    {
        proof {
            use_type_invariant(self);
        }
        self.written
    }

    /// Whether every byte has been written.
    pub fn is_done(&self) -> (b: bool)
        ensures
            b == (self.spec_written() == self.spec_len()),
    {
        self.written == self.len
    }

    /// The bytes still to write: the part of `buf` after those accepted.
    pub fn rest<'a>(&self, buf: &'a [u8]) -> (r: &'a [u8])
        requires
            buf@.len() == self.spec_len(),
        ensures
            r@ == buf@.subrange(self.spec_written() as int, self.spec_len() as int),
    {
        proof {
            use_type_invariant(self);
        }
        vstd::slice::slice_subrange(buf, self.written, self.len)
    }

    /// Records that the file accepted `accepted` of the bytes still to write;
    /// `false`, with nothing recorded, when it accepted none or more than
    /// were left.
    pub fn advance(&mut self, accepted: usize) -> (ok: bool)
        ensures
            ok == (0 < accepted && accepted <= old(self).spec_len() - old(self).spec_written()),
            final(self).spec_len() == old(self).spec_len(),
            ok ==> final(self).spec_written() == old(self).spec_written() + accepted,
            !ok ==> final(self).spec_written() == old(self).spec_written(),
    {
        proof {
            use_type_invariant(&*self);
        }
        if accepted == 0 || accepted > self.len - self.written {
            false
        } else {
            self.written = self.written + accepted;
            true
        }
    }
}

} // verus!
