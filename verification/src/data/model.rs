//! Clips as the storage layer holds them, and the requests that it takes.

use crate::data::{canonical_text, uuid_parsed, Dbid, Timestamp};
use crate::domain::clip::field::password::{normalized, text_of};
use crate::domain::clip::field::{
    ClipId, Content, Expires, Hits, Password, Posted, ShortCode, Title,
};
use crate::domain::clip::{outcome, ClipError, ClipView};
use crate::domain::time::Time;
use crate::text::is_blank;
use vstd::prelude::*;
use vstd::std_specs::convert::FromSpecImpl;

verus! {

/// A stored row: a clip as it comes from storage, with nothing known of it.
#[derive(Clone, Debug)]
pub struct Clip {
    pub clip_id: String,
    pub shortcode: String,
    pub content: String,
    pub title: Option<String>,
    pub posted: Timestamp,
    pub expires: Option<Timestamp>,
    pub password: Option<String>,
    pub hits: i64,
}

/// What a stored row holds, as plain values.
pub struct RowView {
    pub clip_id: Seq<char>,
    pub shortcode: Seq<char>,
    pub content: Seq<char>,
    pub title: Option<Seq<char>>,
    pub posted: Timestamp,
    pub expires: Option<Timestamp>,
    pub password: Option<Seq<char>>,
    pub hits: int,
}

impl View for Clip {
    type V = RowView;

    open spec fn view(&self) -> RowView {
        RowView {
            clip_id: self.clip_id@,
            shortcode: self.shortcode@,
            content: self.content@,
            title: text_of(self.title),
            posted: self.posted,
            expires: self.expires,
            password: text_of(self.password),
            hits: self.hits as int,
        }
    }
}

/// The clip that a stored row stands for, given what reading its identifier
/// came to, or the error of the first field that is not valid: the
/// identifier, then the content, then the hit count.
pub open spec fn converted_with(clip_id: Option<u128>, row: RowView) -> Result<
    ClipView,
    ClipError,
> {
    if clip_id is None {
        Err(ClipError::InvalidIdentifier)
    } else if is_blank(row.content) {
        Err(ClipError::EmptyContent)
    } else if row.hits < 0 {
        Err(ClipError::InvalidHitCount)
    } else {
        Ok(
            ClipView {
                clip_id: clip_id->Some_0,
                shortcode: row.shortcode,
                content: row.content,
                title: row.title,
                posted: row.posted,
                expires: row.expires,
                password: normalized(row.password),
                hits: row.hits as nat,
            },
        )
    }
}

/// The clip that a stored row stands for, or the error of its first field
/// that is not valid.
pub open spec fn converted(row: RowView) -> Result<ClipView, ClipError> {
    converted_with(uuid_parsed(row.clip_id), row)
}

/// What reading an identifier came to, without the error.
pub open spec fn identifier_of(parsed: Result<Dbid, uuid::Error>) -> Option<u128> {
    match parsed {
        Ok(id) => Some(id@),
        Err(_) => None,
    }
}

impl crate::domain::clip::Clip {
    /// Makes a clip of a stored row. Every field is validated; the first that
    /// fails decides the error, and no clip is made of the rest.
    pub fn try_from(clip: Clip) -> (r: Result<crate::domain::clip::Clip, ClipError>)
        ensures
            outcome(r) == converted(clip@),
    {
        let parsed = Dbid::from_str(clip.clip_id.as_str());
        crate::domain::clip::Clip::from_parsed(parsed, clip)
    }

    /// Makes a clip of a stored row whose identifier was read already:
    /// `parsed` is what came of reading it, and the row's own text of it is
    /// not looked at. The other fields are validated as `try_from` does.
    pub fn from_parsed(parsed: Result<Dbid, uuid::Error>, clip: Clip) -> (r: Result<
        crate::domain::clip::Clip,
        ClipError,
    >)
        ensures
            outcome(r) == converted_with(identifier_of(parsed), clip@),
    {
        let clip_id = match parsed {
            Ok(id) => ClipId::new(id),
            Err(e) => {
                return Err(ClipError::from(e));
            },
        };
        let content = match Content::new(clip.content.as_str()) {
            Ok(content) => content,
            Err(e) => {
                return Err(e);
            },
        };
        let password = match Password::new(clip.password) {
            Ok(password) => password,
            Err(e) => {
                return Err(e);
            },
        };
        if clip.hits < 0 {
            return Err(ClipError::InvalidHitCount);
        }
        let expires = match clip.expires {
            Some(at) => Some(Time::from_naive_utc(at)),
            None => None,
        };
        Ok(
            crate::domain::clip::Clip {
                clip_id,
                shortcode: ShortCode::from(clip.shortcode),
                content,
                title: Title::new(clip.title),
                posted: Posted::new(Time::from_naive_utc(clip.posted)),
                expires: Expires::new(expires),
                password,
                hits: Hits::new(clip.hits as u64),
            },
        )
    }
}

/// Converting a row reads the row and nothing else: rows that hold the same
/// values give the same clip, or the same error.
pub proof fn lemma_conversion_repeats(first: Clip, second: Clip)
    requires
        first@ == second@,
    ensures
        converted(first@) == converted(second@),
{
}

/// A row converts to a clip exactly where its identifier parses, its content
/// is not blank and its hit count is not negative; the clip is then valid.
pub proof fn lemma_conversion_succeeds(row: RowView)
    ensures
        converted(row) is Ok <==> uuid_parsed(row.clip_id) is Some && !is_blank(row.content)
            && row.hits >= 0,
        converted(row) is Ok ==> converted(row)->Ok_0.valid(),
{
}

/// A row whose hit count is negative never converts; where the identifier and
/// the content are in order, the error is that of the hit count.
pub proof fn lemma_negative_hits(row: RowView)
    requires
        row.hits < 0,
    ensures
        converted(row) is Err,
        uuid_parsed(row.clip_id) is Some && !is_blank(row.content) ==> converted(row) == Err::<
            ClipView,
            ClipError,
        >(ClipError::InvalidHitCount),
{
}

/// A row whose identifier does not parse fails with that error, whatever its
/// other fields hold.
pub proof fn lemma_malformed_identifier(row: RowView)
    requires
        uuid_parsed(row.clip_id) is None,
    ensures
        converted(row) == Err::<ClipView, ClipError>(ClipError::InvalidIdentifier),
{
}

/// The request for the clip with a shortcode.
#[derive(Clone, Debug)]
pub struct GetClip {
    pub shortcode: String,
}

impl View for GetClip {
    type V = Seq<char>;

    open spec fn view(&self) -> Seq<char> {
        self.shortcode@
    }
}

impl From<ShortCode> for GetClip {
    fn from(shortcode: ShortCode) -> (req: GetClip)
        ensures
            req@ == shortcode@,
    {
        GetClip { shortcode: shortcode.into_inner() }
    }
}

impl FromSpecImpl<ShortCode> for GetClip {
    open spec fn obeys_from_spec() -> bool {
        true
    }

    open spec fn from_spec(shortcode: ShortCode) -> GetClip {
        GetClip { shortcode: shortcode.spec_into_inner() }
    }
}

impl From<String> for GetClip {
    fn from(shortcode: String) -> (req: GetClip)
        ensures
            req@ == shortcode@,
    {
        GetClip { shortcode }
    }
}

impl FromSpecImpl<String> for GetClip {
    open spec fn obeys_from_spec() -> bool {
        true
    }

    open spec fn from_spec(shortcode: String) -> GetClip {
        GetClip { shortcode }
    }
}

/// The request to store a new clip, as the texts and times that the storage
/// layer takes. The time of posting goes in as whole seconds. A request is
/// made of validated fields only, so one that exists needs no validation.
#[derive(Debug)]
pub struct NewClip {
    clip_id: String,
    shortcode: String,
    content: String,
    title: Option<String>,
    posted: i64,
    expires: Option<Timestamp>,
    password: Option<String>,
}

/// What a request for a new clip holds, as plain values.
pub struct NewClipView {
    pub clip_id: Seq<char>,
    pub shortcode: Seq<char>,
    pub content: Seq<char>,
    pub title: Option<Seq<char>>,
    pub posted: int,
    pub expires: Option<Timestamp>,
    pub password: Option<Seq<char>>,
}

impl NewClipView {
    /// What holds of every request: the identifier parses and is not the nil
    /// identifier, the content is not blank, and neither is a password that
    /// is present.
    pub open spec fn wf(self) -> bool {
        &&& uuid_parsed(self.clip_id) is Some
        &&& uuid_parsed(self.clip_id) != Some(0u128)
        &&& !is_blank(self.content)
        &&& normalized(self.password) == self.password
        &&& i64::MIN <= self.posted <= i64::MAX
    }

    /// The clip that the request asks for: no hits yet, posted at the whole
    /// second.
    pub open spec fn requested(self) -> ClipView {
        ClipView {
            clip_id: uuid_parsed(self.clip_id)->Some_0,
            shortcode: self.shortcode,
            content: self.content,
            title: self.title,
            posted: Timestamp { secs: self.posted as i64, nanos: 0 },
            expires: self.expires,
            password: self.password,
            hits: 0,
        }
    }

    /// The row that storing the request writes: its values, and no hits.
    pub open spec fn inserted(self) -> RowView {
        RowView {
            clip_id: self.clip_id,
            shortcode: self.shortcode,
            content: self.content,
            title: self.title,
            posted: Timestamp { secs: self.posted as i64, nanos: 0 },
            expires: self.expires,
            password: self.password,
            hits: 0,
        }
    }
}

impl View for NewClip {
    type V = NewClipView;

    closed spec fn view(&self) -> NewClipView {
        NewClipView {
            clip_id: self.clip_id@,
            shortcode: self.shortcode@,
            content: self.content@,
            title: text_of(self.title),
            posted: self.posted as int,
            expires: self.expires,
            password: text_of(self.password),
        }
    }
}

impl NewClip {
    #[verifier::type_invariant]
    spec fn valid(&self) -> bool {
        self@.wf()
    }

    /// The request that asks for a clip of these fields. The identifier goes
    /// in as its canonical text. The nil identifier is a placeholder and no
    /// clip's identity: no request is made of it.
    pub fn new(
        clip_id: ClipId,
        shortcode: ShortCode,
        content: Content,
        title: Title,
        posted: Posted,
        expires: Expires,
        password: Password,
    ) -> (req: NewClip)
        requires
            clip_id@ != 0,
        ensures
            req@.wf(),
            req@.clip_id == canonical_text(clip_id@),
            req@.requested() == (ClipView {
                clip_id: clip_id@,
                shortcode: shortcode@,
                content: content@,
                title: title@,
                posted: Timestamp { secs: posted@.secs, nanos: 0 },
                expires: expires@,
                password: password@,
                hits: 0,
            }),
    {
        let expires = match expires.into_inner() {
            Some(at) => Some(at.into_inner()),
            None => None,
        };
        NewClip {
            clip_id: clip_id.into_inner().to_string(),
            shortcode: shortcode.into_inner(),
            content: content.into_inner(),
            title: title.into_inner(),
            posted: posted.into_inner().timestamp(),
            expires,
            password: password.into_inner(),
        }
    }

    /// The row that storing this request writes: the hit count starts at
    /// zero, and the identifier is never the nil identifier. Converting the
    /// row gives the clip that was asked for.
    pub fn into_row(self) -> (row: Clip)
        ensures
            self@.wf(),
            row@ == self@.inserted(),
            uuid_parsed(row@.clip_id) is Some,
            uuid_parsed(row@.clip_id) != Some(0u128),
            converted(row@) == Ok::<ClipView, ClipError>(self@.requested()),
    {
        proof {
            use_type_invariant(&self);
        }
        Clip {
            clip_id: self.clip_id,
            shortcode: self.shortcode,
            content: self.content,
            title: self.title,
            posted: Timestamp { secs: self.posted, nanos: 0 },
            expires: self.expires,
            password: self.password,
            hits: 0,
        }
    }
}

/// Storing a request and converting the row that was written gives the clip
/// that was asked for, with no hits and an identifier that is not nil.
pub proof fn lemma_insert_then_fetch(req: NewClipView)
    requires
        req.wf(),
    ensures
        converted(req.inserted()) == Ok::<ClipView, ClipError>(req.requested()),
        req.requested().hits == 0,
        req.requested().clip_id != 0,
        req.requested().valid(),
{
}

/// The request to replace the content, the title, the expiry and the
/// password of the clip with a shortcode.
#[derive(Debug)]
pub struct UpdateClip {
    shortcode: String,
    content: String,
    title: Option<String>,
    expires: Option<Timestamp>,
    password: Option<String>,
}

/// What a request for an update holds, as plain values.
pub struct UpdateClipView {
    pub shortcode: Seq<char>,
    pub content: Seq<char>,
    pub title: Option<Seq<char>>,
    pub expires: Option<Timestamp>,
    pub password: Option<Seq<char>>,
}

impl UpdateClipView {
    /// What holds of every request: the content is not blank, and neither is
    /// a password that is present.
    pub open spec fn wf(self) -> bool {
        &&& !is_blank(self.content)
        &&& normalized(self.password) == self.password
    }

    /// The clip after the update: the four values are the request's, the
    /// rest is as it was.
    pub open spec fn replaced(self, clip: ClipView) -> ClipView {
        ClipView {
            clip_id: clip.clip_id,
            shortcode: clip.shortcode,
            content: self.content,
            title: self.title,
            posted: clip.posted,
            expires: self.expires,
            password: self.password,
            hits: clip.hits,
        }
    }

    /// The row after the update: one with the request's shortcode takes the
    /// four values and keeps the rest, any other row stays as it is.
    pub open spec fn updated(self, row: RowView) -> RowView {
        if row.shortcode == self.shortcode {
            RowView {
                clip_id: row.clip_id,
                shortcode: row.shortcode,
                content: self.content,
                title: self.title,
                posted: row.posted,
                expires: self.expires,
                password: self.password,
                hits: row.hits,
            }
        } else {
            row
        }
    }
}

impl View for UpdateClip {
    type V = UpdateClipView;

    closed spec fn view(&self) -> UpdateClipView {
        UpdateClipView {
            shortcode: self.shortcode@,
            content: self.content@,
            title: text_of(self.title),
            expires: self.expires,
            password: text_of(self.password),
        }
    }
}

impl UpdateClip {
    #[verifier::type_invariant]
    spec fn valid(&self) -> bool {
        self@.wf()
    }

    /// The shortcode of the clip to update.
    pub fn shortcode(&self) -> (code: &str)
        ensures
            code@ == self@.shortcode,
    {
        self.shortcode.as_str()
    }

    /// The new content: never blank.
    pub fn content(&self) -> (content: &str)
        ensures
            content@ == self@.content,
            !is_blank(content@),
    {
        proof {
            use_type_invariant(self);
        }
        self.content.as_str()
    }

    /// The new title, if there is one.
    pub fn title(&self) -> (title: &Option<String>)
        ensures
            text_of(*title) == self@.title,
    {
        &self.title
    }

    /// The new expiry, if there is one.
    pub fn expires(&self) -> (expires: Option<Timestamp>)
        ensures
            expires == self@.expires,
    {
        self.expires
    }

    /// The new password, if there is one: never blank.
    pub fn password(&self) -> (password: &Option<String>)
        ensures
            text_of(*password) == self@.password,
            normalized(self@.password) == self@.password,
    {
        proof {
            use_type_invariant(self);
        }
        &self.password
    }

    /// The request that gives the clip with this shortcode these four fields.
    pub fn new(
        shortcode: ShortCode,
        content: Content,
        title: Title,
        expires: Expires,
        password: Password,
    ) -> (req: UpdateClip)
        ensures
            req@.wf(),
            req@ == (UpdateClipView {
                shortcode: shortcode@,
                content: content@,
                title: title@,
                expires: expires@,
                password: password@,
            }),
    {
        let expires = match expires.into_inner() {
            Some(at) => Some(at.into_inner()),
            None => None,
        };
        UpdateClip {
            shortcode: shortcode.into_inner(),
            content: content.into_inner(),
            title: title.into_inner(),
            expires,
            password: password.into_inner(),
        }
    }

    /// What the update makes of a stored row.
    pub fn apply(self, row: Clip) -> (after: Clip)
        ensures
            self@.wf(),
            after@ == self@.updated(row@),
    {
        proof {
            use_type_invariant(&self);
        }
        if row.shortcode == self.shortcode {
            Clip {
                clip_id: row.clip_id,
                shortcode: row.shortcode,
                content: self.content,
                title: self.title,
                posted: row.posted,
                expires: self.expires,
                password: self.password,
                hits: row.hits,
            }
        } else {
            row
        }
    }
}

/// Updating a stored clip and converting the row again gives a clip with the
/// four values of the request, and with the identifier, the shortcode, the
/// time of posting and the hit count that it had.
pub proof fn lemma_update_then_fetch(req: UpdateClipView, row: RowView)
    requires
        req.wf(),
        converted(row) is Ok,
        row.shortcode == req.shortcode,
    ensures
        converted(req.updated(row)) == Ok::<ClipView, ClipError>(
            req.replaced(converted(row)->Ok_0),
        ),
{
}

/// An update leaves every row with another shortcode as it was.
pub proof fn lemma_update_elsewhere(req: UpdateClipView, row: RowView)
    requires
        row.shortcode != req.shortcode,
    ensures
        req.updated(row) == row,
{
}

} // verus!
