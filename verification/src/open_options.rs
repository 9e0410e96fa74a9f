//! What a caller wants of a file it opens, and the open flags that say so to
//! the kernel.

use vstd::prelude::*;
use crate::errno::EINVAL;
use crate::error::Error;
use crate::linux::{
    O_ACCMODE, O_APPEND, O_CLOEXEC, O_CREAT, O_EXCL, O_LARGEFILE, O_RDONLY, O_RDWR, O_TRUNC,
    O_WRONLY,
};

verus! {

/// The wishes of a caller that opens a file.
#[derive(Clone, Copy, Debug)]
pub struct OpenOptions {
    read: bool,
    write: bool,
    append: bool,
    truncate: bool,
    create: bool,
    create_new: bool,
    custom_flags: i32,
    mode: u32,
}

/// The wishes of a caller that opens a file, as contracts speak of them.
pub struct OpenIntent {
    pub read: bool,
    pub write: bool,
    pub append: bool,
    pub truncate: bool,
    pub create: bool,
    pub create_new: bool,
    pub custom_flags: i32,
    pub mode: u32,
}

impl View for OpenOptions {
    type V = OpenIntent;

    closed spec fn view(&self) -> OpenIntent {
        OpenIntent {
            read: self.read,
            write: self.write,
            append: self.append,
            truncate: self.truncate,
            create: self.create,
            create_new: self.create_new,
            custom_flags: self.custom_flags,
            mode: self.mode,
        }
    }
}

/// The mode bits of a file that is created where the caller names none.
pub const DEFAULT_FILE_MODE: u32 = 0o666;

/// The error of a set of wishes that does not go together.
pub open spec fn invalid_argument() -> Error {
    Error::Os { code: EINVAL }
}

/// Whether the wishes ask for any access at all.
pub open spec fn access_requested(o: OpenIntent) -> bool {
    o.read || o.write || o.append
}

/// The access mode flags: reading, writing or both, where appending counts
/// as writing, and the append flag with it.
pub open spec fn access_mode_spec(o: OpenIntent) -> Result<i32, Error> {
    if !access_requested(o) {
        Err(invalid_argument())
    } else if o.append {
        Ok(
            if o.read {
                O_RDWR | O_APPEND
            } else {
                O_WRONLY | O_APPEND
            },
        )
    } else if o.read && o.write {
        Ok(O_RDWR)
    } else if o.read {
        Ok(O_RDONLY)
    } else {
        Ok(O_WRONLY)
    }
}

/// Whether the wishes about creation and truncation go together with those
/// about access. Writing without appending goes with everything. Without any
/// writing nothing may be created or truncated. Appending does not go with
/// truncating, unless the file has to be new.
pub open spec fn creation_allowed(o: OpenIntent) -> bool {
    if o.append {
        !o.truncate || o.create_new
    } else if o.write {
        true
    } else {
        !o.truncate && !o.create && !o.create_new
    }
}

/// The creation flags: a file that has to be new is created exclusively,
/// whatever else is asked; otherwise creating and truncating each add their
/// flag.
pub open spec fn creation_mode_spec(o: OpenIntent) -> Result<i32, Error> {
    if !creation_allowed(o) {
        Err(invalid_argument())
    } else if o.create_new {
        Ok(O_CREAT | O_EXCL)
    } else if o.create && o.truncate {
        Ok(O_CREAT | O_TRUNC)
    } else if o.create {
        Ok(O_CREAT)
    } else if o.truncate {
        Ok(O_TRUNC)
    } else {
        Ok(0)
    }
}

/// Whether a set of wishes can be handed to the kernel.
pub open spec fn intent_valid(o: OpenIntent) -> bool {
    access_requested(o) && creation_allowed(o)
}

/// The flags handed to the kernel: close-on-exec and large-file support
/// always, the access mode, the creation flags, and the caller's own flags
/// without their access mode bits.
pub open spec fn open_flags_spec(o: OpenIntent) -> Result<i32, Error> {
    match access_mode_spec(o) {
        Err(e) => Err(e),
        Ok(access) => match creation_mode_spec(o) {
            Err(e) => Err(e),
            Ok(creation) => Ok(
                O_CLOEXEC | O_LARGEFILE | access | creation | (o.custom_flags & !O_ACCMODE),
            ),
        },
    }
}

/// Every set of wishes either has its one encoding or is refused: it is
/// refused exactly when the wishes do not go together, and then with the
/// kernel's error number for an invalid argument.
pub proof fn lemma_open_flags_total(o: OpenIntent)
    ensures
        open_flags_spec(o) is Ok <==> intent_valid(o),
        !intent_valid(o) ==> open_flags_spec(o) == Err::<i32, Error>(invalid_argument()),
{
}

/// The flags of valid wishes always ask for close-on-exec and large-file
/// support, and their access mode bits are those that the wishes spell:
/// the caller's own flags cannot put another access mode in their place.
pub proof fn lemma_open_flags_shape(o: OpenIntent)
    requires
        intent_valid(o),
    ensures
        open_flags_spec(o) matches Ok(flags) && access_mode_spec(o) matches Ok(access) && {
            &&& flags & O_CLOEXEC == O_CLOEXEC
            &&& flags & O_LARGEFILE == O_LARGEFILE
            &&& flags & O_ACCMODE == access & O_ACCMODE
        },
{
    let access = access_mode_spec(o)->Ok_0;
    let creation = creation_mode_spec(o)->Ok_0;
    let custom = o.custom_flags;
    assert(creation & 3 == 0) by {
        assert(0i32 & 3 == 0) by (bit_vector);
        assert(0o100i32 & 3 == 0) by (bit_vector);
        assert(0o1000i32 & 3 == 0) by (bit_vector);
        assert((0o100i32 | 0o1000i32) & 3 == 0) by (bit_vector);
        assert((0o100i32 | 0o200i32) & 3 == 0) by (bit_vector);
    }
    assert({
        let flags = 0o2000000i32 | 0o100000i32 | access | creation | (custom & !3i32);
        &&& flags & 0o2000000i32 == 0o2000000i32
        &&& flags & 0o100000i32 == 0o100000i32
        &&& flags & 3i32 == access & 3i32
    }) by (bit_vector)
        requires
            creation & 3 == 0,
    ;
}

impl OpenOptions {
    /// Wishes for nothing: no access, no creation, no flags of the caller's
    /// own, and the default mode for a file that gets created.
    pub fn new() -> (opts: OpenOptions)
        ensures
            opts@ == (OpenIntent {
                read: false,
                write: false,
                append: false,
                truncate: false,
                create: false,
                create_new: false,
                custom_flags: 0,
                mode: DEFAULT_FILE_MODE,
            }),
    {
        OpenOptions {
            read: false,
            write: false,
            append: false,
            truncate: false,
            create: false,
            create_new: false,
            custom_flags: 0,
            mode: DEFAULT_FILE_MODE,
        }
    }

    /// Sets whether the file is read.
    pub fn read(&mut self, read: bool)
        ensures
            final(self)@ == (OpenIntent { read, ..old(self)@ }),
    {
        self.read = read;
    }

    /// Sets whether the file is written.
    pub fn write(&mut self, write: bool)
        ensures
            final(self)@ == (OpenIntent { write, ..old(self)@ }),
    {
        self.write = write;
    }

    /// Sets whether every write goes to the end of the file.
    pub fn append(&mut self, append: bool)
        ensures
            final(self)@ == (OpenIntent { append, ..old(self)@ }),
    {
        self.append = append;
    }

    /// Sets whether the file is cut to length zero when it is opened.
    pub fn truncate(&mut self, truncate: bool)
        ensures
            final(self)@ == (OpenIntent { truncate, ..old(self)@ }),
    {
        self.truncate = truncate;
    }

    /// Sets whether the file is created if it is not there.
    pub fn create(&mut self, create: bool)
        ensures
            final(self)@ == (OpenIntent { create, ..old(self)@ }),
    {
        self.create = create;
    }

    /// Sets whether the file has to be new.
    pub fn create_new(&mut self, create_new: bool)
        ensures
            final(self)@ == (OpenIntent { create_new, ..old(self)@ }),
    {
        self.create_new = create_new;
    }

    /// Sets flags of the caller's own that are handed on to the kernel.
    pub fn custom_flags(&mut self, flags: i32)
        ensures
            final(self)@ == (OpenIntent { custom_flags: flags, ..old(self)@ }),
    {
        self.custom_flags = flags;
    }

    /// The mode bits handed to the kernel for a file that gets created.
    pub(crate) fn creation_mode_bits(&self) -> (mode: u16)
        ensures
            mode == self@.mode as u16,
    {
        self.mode as u16
    }

    /// The access mode flags, or the error of wishes that ask for no access.
    pub fn get_access_mode(&self) -> (r: Result<i32, Error>)
        ensures
            r == access_mode_spec(self@),
    {
        match (self.read, self.write, self.append) {
            (true, false, false) => Ok(O_RDONLY),
            (false, true, false) => Ok(O_WRONLY),
            (true, true, false) => Ok(O_RDWR),
            (false, _, true) => Ok(O_WRONLY | O_APPEND),
            (true, _, true) => Ok(O_RDWR | O_APPEND),
            (false, false, false) => Err(Error::from_raw_os_error(EINVAL)),
        }
    }

    /// The creation flags, or the error of wishes about creation that do not
    /// go together with those about access.
    pub fn get_creation_mode(&self) -> (r: Result<i32, Error>)
        ensures
            r == creation_mode_spec(self@),
    {
        match (self.write, self.append) {
            (true, false) => {},
            (false, false) => {
                if self.truncate || self.create || self.create_new {
                    return Err(Error::from_raw_os_error(EINVAL));
                }
            },
            (_, true) => {
                if self.truncate && !self.create_new {
                    return Err(Error::from_raw_os_error(EINVAL));
                }
            },
        }
        Ok(
            match (self.create, self.truncate, self.create_new) {
                (false, false, false) => 0,
                (true, false, false) => O_CREAT,
                (false, true, false) => O_TRUNC,
                (true, true, false) => O_CREAT | O_TRUNC,
                (_, _, true) => O_CREAT | O_EXCL,
            },
        )
    }

    /// The flags handed to the kernel. Wishes that do not go together are
    /// refused here, before anything is asked of the kernel.
    pub fn open_flags(&self) -> (r: Result<i32, Error>)
        ensures
            r == open_flags_spec(self@),
    {
        let access: i32 = self.get_access_mode()?;
        let creation: i32 = self.get_creation_mode()?;
        Ok(O_CLOEXEC | O_LARGEFILE | access | creation | (self.custom_flags & !O_ACCMODE))
    }
}

} // verus!
