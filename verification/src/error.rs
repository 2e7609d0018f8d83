//! [`Error`] and [`Result`]: `boost::system` error codes captured at the C
//! boundary, with their category and rendered message.

use vstd::prelude::*;

use crate::text::{push_debug_str, push_str, string_of};

verus! {

/// Which error domain an [`Error`] belongs to (the `boost::system` categories).
#[derive(Clone, Copy, Debug, PartialEq, Eq, Hash, Structural)]
#[non_exhaustive]
pub enum Category {
    /// POSIX errno domain.
    Generic,
    /// OS error domain.
    System,
    /// libtorrent's own error codes.
    Libtorrent,
    /// HTTP status errors from trackers / web seeds.
    Http,
    /// Bencoding parse errors.
    Bdecode,
    Gzip,
    Socks,
    Upnp,
    Pcp,
    I2p,
    /// An error produced by the bindings themselves (not libtorrent).
    Bindings,
    /// An error produced by client code layered on the bindings (see
    /// [`Error::client`]).
    Client,
    /// A category (or exception) the bindings don't recognize.
    Unknown,
}

/// The category codes of the C boundary's `ct_error`.
pub const CT_ERROR_CAT_NONE: i32 = 0;
pub const CT_ERROR_CAT_GENERIC: i32 = 1;
pub const CT_ERROR_CAT_SYSTEM: i32 = 2;
pub const CT_ERROR_CAT_LIBTORRENT: i32 = 3;
pub const CT_ERROR_CAT_HTTP: i32 = 4;
pub const CT_ERROR_CAT_BDECODE: i32 = 5;
pub const CT_ERROR_CAT_GZIP: i32 = 6;
pub const CT_ERROR_CAT_SOCKS: i32 = 7;
pub const CT_ERROR_CAT_UPNP: i32 = 8;
pub const CT_ERROR_CAT_PCP: i32 = 9;
pub const CT_ERROR_CAT_I2P: i32 = 10;

/// `errc::operation_canceled` in the generic (POSIX) category: `ECANCELED`.
pub const CT_ERRC_OPERATION_CANCELED: i32 = 125;

/// The category a raw category code stands for.
pub open spec fn category_of_code(raw: i32) -> Category {
    if raw == CT_ERROR_CAT_GENERIC {
        Category::Generic
    } else if raw == CT_ERROR_CAT_SYSTEM {
        Category::System
    } else if raw == CT_ERROR_CAT_LIBTORRENT {
        Category::Libtorrent
    } else if raw == CT_ERROR_CAT_HTTP {
        Category::Http
    } else if raw == CT_ERROR_CAT_BDECODE {
        Category::Bdecode
    } else if raw == CT_ERROR_CAT_GZIP {
        Category::Gzip
    } else if raw == CT_ERROR_CAT_SOCKS {
        Category::Socks
    } else if raw == CT_ERROR_CAT_UPNP {
        Category::Upnp
    } else if raw == CT_ERROR_CAT_PCP {
        Category::Pcp
    } else if raw == CT_ERROR_CAT_I2P {
        Category::I2p
    } else {
        Category::Unknown
    }
}

impl Category {
    /// Maps a raw category code of the C boundary to a category.
    pub fn from_ct(raw: i32) -> (r: Category)
        ensures
            r == category_of_code(raw),
    {
        if raw == CT_ERROR_CAT_GENERIC {
            Category::Generic
        } else if raw == CT_ERROR_CAT_SYSTEM {
            Category::System
        } else if raw == CT_ERROR_CAT_LIBTORRENT {
            Category::Libtorrent
        } else if raw == CT_ERROR_CAT_HTTP {
            Category::Http
        } else if raw == CT_ERROR_CAT_BDECODE {
            Category::Bdecode
        } else if raw == CT_ERROR_CAT_GZIP {
            Category::Gzip
        } else if raw == CT_ERROR_CAT_SOCKS {
            Category::Socks
        } else if raw == CT_ERROR_CAT_UPNP {
            Category::Upnp
        } else if raw == CT_ERROR_CAT_PCP {
            Category::Pcp
        } else if raw == CT_ERROR_CAT_I2P {
            Category::I2p
        } else {
            Category::Unknown
        }
    }
}

/// An error reported by libtorrent (or the bindings' C boundary). The message
/// is captured eagerly at the call site, so the value is `Send + Sync`.
#[derive(Clone, Debug)]
pub struct Error {
    value: i32,
    category: Category,
    message: String,
}

/// The mathematical content of an [`Error`].
pub ghost struct ErrorView {
    pub value: i32,
    pub category: Category,
    pub message: Seq<char>,
}

impl View for Error {
    type V = ErrorView;

    closed spec fn view(&self) -> ErrorView {
        ErrorView { value: self.value, category: self.category, message: self.message@ }
    }
}

impl Error {
    /// The raw error value within its [`Category`].
    pub fn value(&self) -> (r: i32)
        ensures
            r == self@.value,
    {
        self.value
    }

    pub fn category(&self) -> (r: Category)
        ensures
            r == self@.category,
    {
        self.category
    }

    pub fn message(&self) -> (r: &str)
        ensures
            r@ == self@.message,
    {
        self.message.as_str()
    }

    /// Whether this error reports an operation aborted at the caller's
    /// request (e.g. a piece-hashing progress callback returning false).
    pub fn is_cancelled(&self) -> (r: bool)
        ensures
            r == (self@.category == Category::Generic && self@.value
                == CT_ERRC_OPERATION_CANCELED),
    {
        self.category == Category::Generic && self.value == CT_ERRC_OPERATION_CANCELED
    }

    /// An error originating in the bindings (e.g. a closed session).
    pub fn binding(message: &str) -> (r: Error)
        ensures
            r@ == (ErrorView { value: 0, category: Category::Bindings, message: message@ }),
    {
        Error { value: 0, category: Category::Bindings, message: string_of(message) }
    }

    /// An error originating in client code, for implementations of traits
    /// this crate calls back into (e.g. [`ClientData::from_bencode`](crate::ClientData::from_bencode)).
    pub fn client(message: String) -> (r: Error)
        ensures
            r@ == (ErrorView { value: 0, category: Category::Client, message: message@ }),
    {
        Error { value: 0, category: Category::Client, message }
    }

    /// A libtorrent error that carries only diagnostic text, no error code
    /// (e.g. a session error posted for an uncaught exception).
    pub fn from_message(message: String) -> (r: Error)
        ensures
            r@ == (ErrorView { value: 0, category: Category::Unknown, message: message@ }),
    {
        Error { value: 0, category: Category::Unknown, message }
    }

    /// Converts a `ct_error` (its value, raw category code, and the message
    /// libtorrent rendered for it) into `Some(Error)` if it is set.
    pub fn from_ct(value: i32, raw_category: i32, message: String) -> (r: Option<Error>)
        ensures
            raw_category == CT_ERROR_CAT_NONE ==> r is None,
            raw_category != CT_ERROR_CAT_NONE ==> (r matches Some(e) && e@ == (ErrorView {
                value,
                category: category_of_code(raw_category),
                message: message@,
            })),
    {
        if raw_category == CT_ERROR_CAT_NONE {
            return None;
        }
        Some(Error { value, category: Category::from_ct(raw_category), message })
    }

    /// The `Display` text: `"{message} ({category:?}:{value})"`.
    pub fn to_string(&self) -> (r: String)
        ensures
            r@ == self@.message + seq![' ', '('] + category_name(self@.category) + seq![':']
                + crate::text::int_text(self@.value as int) + seq![')'],
    {
        let mut s = self.message.clone();
        push_str(&mut s, " (");
        push_category_name(&mut s, self.category);
        crate::text::push_char(&mut s, ':');
        crate::text::push_int(&mut s, self.value as i64);
        crate::text::push_char(&mut s, ')');
        proof {
            reveal_strlit(" (");
            assert(s@ =~= self@.message + seq![' ', '('] + category_name(self@.category) + seq![
                ':',
            ] + crate::text::int_text(self@.value as int) + seq![')']);
        }
        s
    }
}

/// The `Debug` name of a category.
pub open spec fn category_name(c: Category) -> Seq<char> {
    match c {
        Category::Generic => "Generic"@,
        Category::System => "System"@,
        Category::Libtorrent => "Libtorrent"@,
        Category::Http => "Http"@,
        Category::Bdecode => "Bdecode"@,
        Category::Gzip => "Gzip"@,
        Category::Socks => "Socks"@,
        Category::Upnp => "Upnp"@,
        Category::Pcp => "Pcp"@,
        Category::I2p => "I2p"@,
        Category::Bindings => "Bindings"@,
        Category::Client => "Client"@,
        Category::Unknown => "Unknown"@,
    }
}

fn push_category_name(s: &mut String, c: Category)
    ensures
        final(s)@ == old(s)@ + category_name(c),
{
    let name = match c {
        Category::Generic => "Generic",
        Category::System => "System",
        Category::Libtorrent => "Libtorrent",
        Category::Http => "Http",
        Category::Bdecode => "Bdecode",
        Category::Gzip => "Gzip",
        Category::Socks => "Socks",
        Category::Upnp => "Upnp",
        Category::Pcp => "Pcp",
        Category::I2p => "I2p",
        Category::Bindings => "Bindings",
        Category::Client => "Client",
        Category::Unknown => "Unknown",
    };
    push_str(s, name);
}

pub type Result<T> = core::result::Result<T, Error>;

/// The category codes of the C boundary map to their categories: 1
/// generic, 2 system, 3 libtorrent, 4 HTTP, 5 bdecode, 6 gzip, 7 SOCKS, 8
/// UPnP, 9 PCP, 10 I2P; every other code is unknown (0 means no error).
pub proof fn lemma_category_codes(raw: i32)
    ensures
        category_of_code(1) == Category::Generic,
        category_of_code(2) == Category::System,
        category_of_code(3) == Category::Libtorrent,
        category_of_code(4) == Category::Http,
        category_of_code(5) == Category::Bdecode,
        category_of_code(6) == Category::Gzip,
        category_of_code(7) == Category::Socks,
        category_of_code(8) == Category::Upnp,
        category_of_code(9) == Category::Pcp,
        category_of_code(10) == Category::I2p,
        !(1 <= raw <= 10) ==> category_of_code(raw) == Category::Unknown,
        CT_ERROR_CAT_NONE == 0,
{
}

} // verus!
