//! Lazy paginated directory traversal: a state machine that alternates
//! between draining a buffer of entries received from the server and
//! asking for a continuation page when the buffer empties and the server
//! said more data exists.

use vstd::prelude::*;

use crate::types::Error;

verus! {

/// One entry of a directory listing.
#[derive(Debug, Clone, PartialEq, Eq)]
pub enum Metadata {
    /// A file.
    File {
        /// The entry's name.
        name: String,
        /// The entry's display path, when the server supplied one.
        path_display: Option<String>,
    },
    /// A folder.
    Folder {
        /// The entry's name.
        name: String,
        /// The entry's display path, when the server supplied one.
        path_display: Option<String>,
    },
    /// A deletion marker.
    Deleted {
        /// The entry's name.
        name: String,
        /// The entry's display path, when the server supplied one.
        path_display: Option<String>,
    },
}

/// The view of an optional string.
pub open spec fn opt_string_view(s: Option<String>) -> Option<Seq<char>> {
    match s {
        Some(t) => Some(t@),
        None => None,
    }
}

/// One page of a directory listing, as the server returned it.
#[derive(Debug, Clone, PartialEq, Eq)]
pub struct ListingPage {
    /// The entries of this page, in server order.
    pub entries: Vec<Metadata>,
    /// The resume token for the next page, present when more data exists.
    pub cursor: Option<String>,
    /// Whether the server holds more entries beyond this page.
    pub has_more: bool,
}

impl ListingPage {
    /// A page is well formed when it carries a cursor exactly when it
    /// announces more data.
    pub open spec fn wf(&self) -> bool {
        self.has_more <==> self.cursor is Some
    }
}

/// What one step of the traversal asks of its driver.
#[derive(Debug, Clone, PartialEq, Eq)]
pub enum Step {
    /// The next entry, in server order.
    Entry(Metadata),
    /// The buffer is drained and more data exists: issue a continuation
    /// call with this cursor, then feed the resulting page back in.
    NeedPage(String),
    /// The traversal is exhausted; no further entries will ever come.
    Done,
}

/// The traversal state: a buffer of entries not yet handed out, and the
/// cursor for the next page, if one is held.
#[derive(Debug)]
pub struct DirectoryIterator {
    buffer: Vec<Metadata>,
    cursor: Option<String>,
}

impl DirectoryIterator {
    /// The entries received but not yet handed out, in server order.
    pub closed spec fn buffer_spec(&self) -> Seq<Metadata> {
        self.buffer@
    }

    /// The resume token held for the next continuation call, if any.
    pub closed spec fn cursor_spec(&self) -> Option<Seq<char>> {
        match self.cursor {
            Some(c) => Some(c@),
            None => None,
        }
    }

    /// Start a traversal from the first page. The cursor is retained only
    /// when the server announced more data.
    pub fn from_page(page: ListingPage) -> (it: Self)
        requires
            page.wf(),
        ensures
            it.buffer_spec() == page.entries@,
            it.cursor_spec() == (if page.has_more {
                opt_string_view(page.cursor)
            } else {
                None::<Seq<char>>
            }),
    {
        let cursor = if page.has_more {
            page.cursor
        } else {
            None
        };
        DirectoryIterator { buffer: page.entries, cursor }
    }

    /// One transition of the traversal. While the buffer is non-empty, the
    /// front entry is handed out and the rest keep their order. When the
    /// buffer is drained and a cursor is held, the cursor is surrendered
    /// and a continuation call is requested; if that call fails, the state
    /// is already terminal, so the failure is the one and only error item
    /// of the traversal. With no buffer and no cursor the traversal is
    /// exhausted and stays so.
    pub fn next_step(&mut self) -> (s: Step)
        ensures
            old(self).buffer_spec().len() > 0 ==> (s matches Step::Entry(m) && (m == old(
                self).buffer_spec()[0] && final(self).buffer_spec() == old(
                self).buffer_spec().drop_first() && final(self).cursor_spec() == old(
                self).cursor_spec())),
            old(self).buffer_spec().len() == 0 ==> match old(self).cursor_spec() {
                Some(c) => s matches Step::NeedPage(cs) && (cs@ == c && final(
                    self).buffer_spec().len() == 0 && final(self).cursor_spec() is None),
                None => s is Done && (final(self).buffer_spec().len() == 0 && final(
                    self).cursor_spec() is None),
            },
    {
        if self.buffer.len() > 0 {
            let m = self.buffer.remove(0);
            proof {
                assert(self.buffer@ =~= old(self).buffer@.drop_first());
            }
            Step::Entry(m)
        } else {
            match self.cursor.take() {
                Some(c) => Step::NeedPage(c),
                None => Step::Done,
            }
        }
    }

    /// Feed the page a continuation call returned: it replaces the buffer,
    /// and its cursor is retained only when the server announced more
    /// data.
    pub fn feed_page(&mut self, page: ListingPage)
        requires
            page.wf(),
        ensures
            final(self).buffer_spec() == page.entries@,
            final(self).cursor_spec() == (if page.has_more {
                opt_string_view(page.cursor)
            } else {
                None::<Seq<char>>
            }),
    {
        self.buffer = page.entries;
        self.cursor = if page.has_more {
            page.cursor
        } else {
            None
        };
    }
}

/// Normalize the path of an initial listing call. The root path `/` is
/// sent to the server as the empty string; any other path starting with a
/// slash is sent verbatim; a path not starting with a slash is rejected
/// before any call is made.
pub fn normalize_list_path(path: &str) -> (r: Result<String, Error>)
    ensures
        path@ == "/"@ ==> (r matches Ok(p) && p@ == Seq::<char>::empty()),
        path@ != "/"@ && path@.len() > 0 && path@[0] == '/' ==> (r matches Ok(p) && p@ == path@),
        !(path@.len() > 0 && path@[0] == '/') ==> (r matches Err(e) && (e matches Error::BadPath(m)
            && m@ == path@)),
{
    proof {
        reveal_strlit("/");
    }
    let len = path.unicode_len();
    if len == 0 {
        return Err(Error::BadPath(path.to_owned()));
    }
    let c0 = path.get_char(0);
    if c0 != '/' {
        return Err(Error::BadPath(path.to_owned()));
    }
    if len == 1 {
        proof {
            assert(path@ =~= "/"@);
        }
        Ok(String::new())
    } else {
        Ok(path.to_owned())
    }
}

} // verus!
