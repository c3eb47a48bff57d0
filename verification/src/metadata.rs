//! The metadata vocabulary of a media record: kinds, formats, resolution,
//! kind-specific data and the free-form key/value map for long-tail fields.

use vstd::prelude::*;

verus! {

/// A simple enum over the supported types of media.
#[derive(Clone, Copy, Debug, PartialEq, Eq, PartialOrd, Ord, Hash, Structural)]
pub enum MediaKind {
    Photo,
    AnimatedPhoto,
    Video,
}

impl MediaKind {
    /// The kind's display name.
    pub open spec fn spec_display(self) -> Seq<char> {
        match self {
            MediaKind::Photo => "Photo"@,
            MediaKind::AnimatedPhoto => "AnimatedPhoto"@,
            MediaKind::Video => "Video"@,
        }
    }

    /// Renders the kind the way a user sees it.
    pub fn display(&self) -> (r: String)
        ensures
            r@ == self.spec_display(),
    {
        match self {
            MediaKind::Photo => String::from_str("Photo"),
            MediaKind::AnimatedPhoto => String::from_str("AnimatedPhoto"),
            MediaKind::Video => String::from_str("Video"),
        }
    }
}

/// A video's framerate, represented as a fraction of frames per second.
#[derive(Clone, Copy, Debug, PartialEq, Eq, Structural)]
pub struct Framerate {
    pub num: u32,
    pub den: u32,
}

/// Metadata "specific" to one type of media.
#[derive(Clone, Copy, Debug, PartialEq, Eq, Structural)]
pub enum SpecificMetadata {
    Image {},

    AnimatedImage { frame_count: u32, framerate: Framerate },

    Video {
        /// The video's length in milliseconds.
        length_ms: u64,
    },
}

/// The value side of one free-form metadata entry.
#[derive(Clone, Debug)]
pub struct OtherMetadataValue {
    pub user_facing_name: Option<String>,
    pub value: String,
}

/// The mathematical shape of an [`OtherMetadataValue`].
#[verifier::ext_equal]
pub struct OtherMetadataValueView {
    pub user_facing_name: Option<Seq<char>>,
    pub value: Seq<char>,
}

impl View for OtherMetadataValue {
    type V = OtherMetadataValueView;

    open spec fn view(&self) -> OtherMetadataValueView {
        OtherMetadataValueView {
            user_facing_name: match self.user_facing_name {
                Some(n) => Some(n@),
                None => None,
            },
            value: self.value@,
        }
    }
}

impl OtherMetadataValue {
    pub fn new(name: &str, value: &str) -> (r: OtherMetadataValue)
        ensures
            r@.user_facing_name == Some(name@),
            r@.value == value@,
    {
        OtherMetadataValue { user_facing_name: Some(name.to_owned()), value: value.to_owned() }
    }
}

/// A representation for uncommon metadata that can only be read: a map
/// from a string key to a displayable value, kept as a list of pairs in
/// insertion order, where inserting an existing key replaces its value.
#[derive(Clone, Debug)]
pub struct OtherMetadataMap(pub Vec<(String, OtherMetadataValue)>);

impl View for OtherMetadataMap {
    type V = Seq<(Seq<char>, OtherMetadataValueView)>;

    open spec fn view(&self) -> Seq<(Seq<char>, OtherMetadataValueView)> {
        self.0@.map_values(|p: (String, OtherMetadataValue)| (p.0@, p.1@))
    }
}

/// What one insertion does to the map: the first pair carrying the key is
/// replaced in place; a missing key is appended at the end.
pub open spec fn spec_insert_pair(
    s: Seq<(Seq<char>, OtherMetadataValueView)>,
    k: Seq<char>,
    v: OtherMetadataValueView,
) -> Seq<(Seq<char>, OtherMetadataValueView)>
    decreases s.len(),
{
    if s.len() == 0 {
        seq![(k, v)]
    } else if s[0].0 == k {
        seq![(k, v)] + s.drop_first()
    } else {
        seq![s[0]] + spec_insert_pair(s.drop_first(), k, v)
    }
}

impl OtherMetadataMap {
    pub fn new() -> (r: OtherMetadataMap)
        ensures
            r@ == Seq::<(Seq<char>, OtherMetadataValueView)>::empty(),
    {
        let r = OtherMetadataMap(Vec::new());
        proof {
            assert(r@ =~= Seq::<(Seq<char>, OtherMetadataValueView)>::empty());
        }
        r
    }

    /// How many entries the map holds.
    pub fn len(&self) -> (r: usize)
        ensures
            r == self@.len(),
    {
        self.0.len()
    }

    /// Inserts `value` under `key`, replacing the value of an existing key.
    pub fn insert(&mut self, key: String, value: OtherMetadataValue)
        ensures
            final(self)@ == spec_insert_pair(old(self)@, key@, value@),
    {
        let ghost orig = self@;
        let mut i: usize = 0;
        let n: usize = self.0.len();
        while i < n
            invariant
                n == self.0.len(),
                i <= n,
                orig == old(self)@,
                self@ == orig,
                forall|j: int| 0 <= j < i ==> orig[j].0 != key@,
            decreases n - i,
        {
            let hit: bool = self.0[i].0 == key;
            proof {
                assert(orig[i as int] == (self.0@[i as int].0@, self.0@[i as int].1@));
            }
            if hit {
                let ghost pre = self.0@;
                let v2 = value.clone_value();
                self.0.set(i, (key, v2));
                proof {
                    lemma_insert_pair_found(orig, key@, value@, i as int);
                    assert forall|j: int| 0 <= j < self@.len() implies self@[j] == orig.update(
                        i as int,
                        (key@, value@),
                    )[j] by {
                        assert(self@[j] == (self.0@[j].0@, self.0@[j].1@));
                        if j != i {
                            assert(self.0@[j] == pre[j]);
                        }
                    }
                    assert(self@ =~= orig.update(i as int, (key@, value@)));
                }
                return ;
            }
            i = i + 1;
        }
        self.0.push((key, value));
        proof {
            lemma_insert_pair_missing(orig, key@, value@);
            assert(self@ =~= orig + seq![(key@, value@)]);
        }
    }
}

impl OtherMetadataMap {
    /// An explicit copy that keeps every pair.
    pub fn clone_map(&self) -> (r: OtherMetadataMap)
        ensures
            r@ == self@,
    {
        let mut out: Vec<(String, OtherMetadataValue)> = Vec::new();
        let n: usize = self.0.len();
        let mut i: usize = 0;
        while i < n
            invariant
                n == self.0.len(),
                i <= n,
                out@.len() == i,
                forall|j: int|
                    0 <= j < i ==> (#[trigger] out@[j]).0@ == self.0@[j].0@ && out@[j].1@
                        == self.0@[j].1@,
            decreases n - i,
        {
            let key: String = self.0[i].0.clone();
            let val = self.0[i].1.clone_value();
            out.push((key, val));
            i = i + 1;
        }
        let r = OtherMetadataMap(out);
        proof {
            assert(r@ =~= self@);
        }
        r
    }
}

impl OtherMetadataValue {
    /// Whether two entries carry the same name and value.
    pub fn eq_value(&self, other: &OtherMetadataValue) -> (r: bool)
        ensures
            r == (self@ == other@),
    {
        let names_eq: bool = match (&self.user_facing_name, &other.user_facing_name) {
            (None, None) => true,
            (Some(a), Some(b)) => *a == *b,
            _ => false,
        };
        let r = names_eq && self.value == other.value;
        proof {
            if r {
                assert(self@ =~= other@);
            }
        }
        r
    }
}

impl PartialEq for OtherMetadataMap {
    /// Two maps are equal when they hold the same pairs in the same
    /// order.
    fn eq(&self, other: &OtherMetadataMap) -> (r: bool) {
        if self.0.len() != other.0.len() {
            proof {
                assert(self@.len() == self.0@.len());
                assert(other@.len() == other.0@.len());
            }
            return false;
        }
        let n: usize = self.0.len();
        let mut i: usize = 0;
        while i < n
            invariant
                n == self.0.len(),
                n == other.0.len(),
                i <= n,
                forall|j: int| 0 <= j < i ==> self@[j] == other@[j],
            decreases n - i,
        {
            proof {
                assert(self@[i as int] == (self.0@[i as int].0@, self.0@[i as int].1@));
                assert(other@[i as int] == (other.0@[i as int].0@, other.0@[i as int].1@));
            }
            if !(self.0[i].0 == other.0[i].0) {
                return false;
            }
            if !self.0[i].1.eq_value(&other.0[i].1) {
                return false;
            }
            i = i + 1;
        }
        proof {
            assert(self@ =~= other@);
        }
        true
    }
}

impl vstd::std_specs::cmp::PartialEqSpecImpl for OtherMetadataMap {
    open spec fn obeys_eq_spec() -> bool {
        true
    }

    open spec fn eq_spec(&self, other: &OtherMetadataMap) -> bool {
        self@ == other@
    }
}

impl PartialOrd for OtherMetadataMap {
    /// Maps are ordered by how many entries they hold.
    fn partial_cmp(&self, other: &OtherMetadataMap) -> (r: Option<core::cmp::Ordering>) {
        self.0.len().partial_cmp(&other.0.len())
    }
}

impl vstd::std_specs::cmp::PartialOrdSpecImpl for OtherMetadataMap {
    open spec fn obeys_partial_cmp_spec() -> bool {
        true
    }

    open spec fn partial_cmp_spec(&self, other: &OtherMetadataMap) -> Option<core::cmp::Ordering> {
        if self@.len() < other@.len() {
            Some(core::cmp::Ordering::Less)
        } else if self@.len() == other@.len() {
            Some(core::cmp::Ordering::Equal)
        } else {
            Some(core::cmp::Ordering::Greater)
        }
    }
}

impl Default for OtherMetadataMap {
    fn default() -> (r: OtherMetadataMap)
        ensures
            r@ == Seq::<(Seq<char>, OtherMetadataValueView)>::empty(),
    {
        OtherMetadataMap::new()
    }
}

impl OtherMetadataValue {
    /// An explicit copy; `String` fields keep their characters.
    pub fn clone_value(&self) -> (r: OtherMetadataValue)
        ensures
            r@ == self@,
    {
        let name: Option<String> = match &self.user_facing_name {
            Some(n) => Some(n.clone()),
            None => None,
        };
        OtherMetadataValue { user_facing_name: name, value: self.value.clone() }
    }
}

/// When the key sits at index `i` and nowhere earlier, the insertion is an
/// in-place update of index `i`.
proof fn lemma_insert_pair_found(
    s: Seq<(Seq<char>, OtherMetadataValueView)>,
    k: Seq<char>,
    v: OtherMetadataValueView,
    i: int,
)
    requires
        0 <= i < s.len(),
        s[i].0 == k,
        forall|j: int| 0 <= j < i ==> s[j].0 != k,
    ensures
        spec_insert_pair(s, k, v) == s.update(i, (k, v)),
    decreases i,
{
    if i == 0 {
        assert(spec_insert_pair(s, k, v) == seq![(k, v)] + s.drop_first());
        assert(seq![(k, v)] + s.drop_first() =~= s.update(0, (k, v)));
    } else {
        lemma_insert_pair_found(s.drop_first(), k, v, i - 1);
        assert(spec_insert_pair(s, k, v) == seq![s[0]] + spec_insert_pair(s.drop_first(), k, v));
        assert(seq![s[0]] + s.drop_first().update(i - 1, (k, v)) =~= s.update(i, (k, v)));
    }
}

/// When no pair carries the key, the insertion appends the pair.
proof fn lemma_insert_pair_missing(
    s: Seq<(Seq<char>, OtherMetadataValueView)>,
    k: Seq<char>,
    v: OtherMetadataValueView,
)
    requires
        forall|j: int| 0 <= j < s.len() ==> s[j].0 != k,
    ensures
        spec_insert_pair(s, k, v) == s + seq![(k, v)],
    decreases s.len(),
{
    if s.len() == 0 {
        assert(spec_insert_pair(s, k, v) =~= s + seq![(k, v)]);
    } else {
        lemma_insert_pair_missing(s.drop_first(), k, v);
        assert(seq![s[0]] + (s.drop_first() + seq![(k, v)]) =~= s + seq![(k, v)]);
    }
}

/// Resolution in pixels.
#[derive(Clone, Copy, Debug, PartialEq, Eq, PartialOrd, Ord, Hash, Structural)]
pub struct Resolution {
    pub width: u32,
    pub height: u32,
}

impl Resolution {
    /// Creates a new resolution.
    pub fn new(width: u32, height: u32) -> (r: Resolution)
        ensures
            r.width == width,
            r.height == height,
    {
        Resolution { width, height }
    }
}

/// A representation of a media file's MIME format.
#[derive(Clone, Debug)]
pub struct Format {
    /// The "kind" of media used in this format.
    media_kind: MediaKind,
    /// The specific MIME type string, like "image/avif" or "video/webm".
    mime_type: String,
}

/// The mathematical shape of a [`Format`].
pub struct FormatView {
    pub media_kind: MediaKind,
    pub mime_type: Seq<char>,
}

impl View for Format {
    type V = FormatView;

    closed spec fn view(&self) -> FormatView {
        FormatView { media_kind: self.media_kind, mime_type: self.mime_type@ }
    }
}

/// How a format is rendered: a coarse family name, then the MIME type.
pub open spec fn spec_format_display(f: FormatView) -> Seq<char> {
    match f.media_kind {
        MediaKind::Photo | MediaKind::AnimatedPhoto => "photo/"@ + f.mime_type,
        MediaKind::Video => "video/"@ + f.mime_type,
    }
}

/// The top-level part of a MIME type: everything before the first '/',
/// or the whole string when it holds no '/'.
pub open spec fn spec_mime_head(m: Seq<char>) -> Seq<char>
    decreases m.len(),
{
    if m.len() == 0 {
        m
    } else if m[0] == '/' {
        Seq::empty()
    } else {
        seq![m[0]] + spec_mime_head(m.drop_first())
    }
}

/// The media kind a MIME type maps to: `image/*` is a photo and `video/*`
/// a video; any other top-level type is unsupported. Telling animated
/// photos apart from stills is an open concern, so they also resolve to
/// [`MediaKind::Photo`] here.
pub open spec fn spec_mime_kind(m: Seq<char>) -> Option<MediaKind> {
    if spec_mime_head(m) == "image"@ {
        Some(MediaKind::Photo)
    } else if spec_mime_head(m) == "video"@ {
        Some(MediaKind::Video)
    } else {
        None
    }
}

/// The head of a sequence agrees with the head of any prefix-preserving
/// extension step: scanning one more non-'/' character keeps the head.
proof fn lemma_mime_head_step(m: Seq<char>, i: int)
    requires
        0 <= i < m.len(),
        forall|j: int| 0 <= j < i ==> m[j] != '/',
    ensures
        m[i] == '/' ==> spec_mime_head(m) == m.take(i),
        m[i] != '/' && i == m.len() - 1 ==> spec_mime_head(m) == m,
    decreases i,
{
    if i == 0 {
        if m[0] == '/' {
            assert(spec_mime_head(m) =~= m.take(0));
        } else if m.len() == 1 {
            assert(spec_mime_head(m) == seq![m[0]] + spec_mime_head(m.drop_first()));
            assert(spec_mime_head(m) =~= m);
        }
    } else {
        lemma_mime_head_step(m.drop_first(), i - 1);
        assert(spec_mime_head(m) == seq![m[0]] + spec_mime_head(m.drop_first()));
        if m[i] == '/' {
            assert(seq![m[0]] + m.drop_first().take(i - 1) =~= m.take(i));
        } else if i == m.len() - 1 {
            assert(seq![m[0]] + m.drop_first() =~= m);
        }
    }
}

impl Format {
    /// Tries to create a new [`Format`] from just a MIME type.
    ///
    /// If the MIME type uses an unsupported top-level type, this
    /// returns `None`.
    pub fn new_from_mime(mime: &str) -> (r: Option<Format>)
        ensures
            r is Some <==> spec_mime_kind(mime@) is Some,
            r matches Some(f) ==> f@.media_kind == spec_mime_kind(mime@)->Some_0,
            r matches Some(f) ==> f@.mime_type == mime@,
    {
        let n: usize = mime.unicode_len();
        let mut i: usize = 0;
        // find the end of the top-level type
        while i < n && mime.get_char(i) != '/'
            invariant
                n == mime@.len(),
                i <= n,
                forall|j: int| 0 <= j < i ==> mime@[j] != '/',
            decreases n - i,
        {
            i = i + 1;
        }
        proof {
            if i < n {
                lemma_mime_head_step(mime@, i as int);
            } else if n > 0 {
                lemma_mime_head_step(mime@, n - 1);
                assert(mime@.take(n as int) =~= mime@);
            } else {
                assert(spec_mime_head(mime@) =~= mime@.take(0));
            }
            assert(spec_mime_head(mime@) == mime@.take(i as int));
        }
        let head: String = mime.substring_char(0, i).to_owned();
        proof {
            assert(head@ =~= mime@.take(i as int));
        }
        let kind: Option<MediaKind> = if head == String::from_str("image") {
            Some(MediaKind::Photo)
        } else if head == String::from_str("video") {
            Some(MediaKind::Video)
        } else {
            None
        };
        match kind {
            Some(k) => Some(Format { media_kind: k, mime_type: mime.to_owned() }),
            None => None,
        }
    }

    /// An explicit copy that keeps the kind and the MIME type.
    pub fn clone_format(&self) -> (r: Format)
        ensures
            r@ == self@,
    {
        Format { media_kind: self.media_kind, mime_type: self.mime_type.clone() }
    }

    pub fn media_kind(&self) -> (r: MediaKind)
        ensures
            r == self@.media_kind,
    {
        self.media_kind
    }

    pub fn mime_type(&self) -> (r: String)
        ensures
            r@ == self@.mime_type,
    {
        self.mime_type.clone()
    }

    /// Renders the format the way a user sees it.
    pub fn display(&self) -> (r: String)
        ensures
            r@ == spec_format_display(self@),
    {
        let mut s = match self.media_kind {
            MediaKind::Photo | MediaKind::AnimatedPhoto => String::from_str("photo/"),
            MediaKind::Video => String::from_str("video/"),
        };
        s.append(self.mime_type.as_str());
        s
    }
}

/// Representation of a file's size in bytes.
#[derive(Clone, Copy, Debug, PartialEq, Eq, PartialOrd, Ord, Hash, Structural)]
pub struct Filesize(pub u64);

impl From<u64> for Filesize {
    fn from(value: u64) -> (r: Filesize) {
        Filesize(value)
    }
}

impl vstd::std_specs::convert::FromSpecImpl<u64> for Filesize {
    open spec fn obeys_from_spec() -> bool {
        true
    }

    open spec fn from_spec(value: u64) -> Filesize {
        Filesize(value)
    }
}

/// Representation of a video's bitrate in kibibytes per second.
#[derive(Clone, Copy, Debug, PartialEq, Eq, PartialOrd, Ord, Hash, Structural)]
pub struct Bitrate(pub u32);

/// Greatest common divisor, by Euclid's algorithm.
pub open spec fn spec_gcd(a: nat, b: nat) -> nat
    decreases b,
{
    if b == 0 {
        a
    } else {
        spec_gcd(b, a % b)
    }
}

/// The aspect ratio of a media file, held in lowest terms.
#[derive(Clone, Copy, Debug, PartialEq, Eq, PartialOrd, Ord)]
pub struct AspectRatio {
    /// The reduced width/height pair; `None` stands for the degenerate
    /// 0:0 ratio of an empty dimension.
    frac: Option<(u32, u32)>,
}

/// Relies on `fraction::GenericFraction::new` (and the ratio type under
/// it): a fraction built from a positive numerator and denominator is
/// stored reduced by their greatest common divisor, and `numer`/`denom`
/// return the reduced parts.
#[verifier::external_body]
fn reduce_ratio(width: u32, height: u32) -> (r: (u32, u32))
    requires
        width > 0,
        height > 0,
    ensures
        r.0 == width as nat / spec_gcd(width as nat, height as nat),
        r.1 == height as nat / spec_gcd(width as nat, height as nat),
{
    let f = fraction::GenericFraction::<u32>::new(width, height);
    match (f.numer(), f.denom()) {
        (Some(n), Some(d)) => (*n, *d),
        _ => (width, height),
    }
}

/// The value [`AspectRatio::new`] produces for a width/height pair.
pub closed spec fn spec_aspect_ratio(width: u32, height: u32) -> AspectRatio {
    if width == 0 || height == 0 {
        AspectRatio { frac: None }
    } else {
        AspectRatio {
            frac: Some(
                (
                    (width as nat / spec_gcd(width as nat, height as nat)) as u32,
                    (height as nat / spec_gcd(width as nat, height as nat)) as u32,
                ),
            ),
        }
    }
}

impl AspectRatio {
    /// The reduced width (e.g. "16" in 16:9), or 0 for the degenerate ratio.
    pub closed spec fn spec_width(self) -> u32 {
        match self.frac {
            Some(p) => p.0,
            None => 0,
        }
    }

    /// The reduced height (e.g. "9" in 16:9), or 0 for the degenerate ratio.
    pub closed spec fn spec_height(self) -> u32 {
        match self.frac {
            Some(p) => p.1,
            None => 0,
        }
    }

    /// Creates a new aspect ratio.
    ///
    /// Note that passing either number as zero results in an expected
    /// 0:0 output.
    pub fn new(width: u32, height: u32) -> (r: AspectRatio)
        ensures
            r == spec_aspect_ratio(width, height),
            (width == 0 || height == 0) ==> r.spec_width() == 0 && r.spec_height() == 0,
            (width > 0 && height > 0) ==> r.spec_width() == width as nat / spec_gcd(
                width as nat,
                height as nat,
            ) && r.spec_height() == height as nat / spec_gcd(width as nat, height as nat),
    {
        let frac: Option<(u32, u32)> = if width == 0 || height == 0 {
            None
        } else {
            let reduced = reduce_ratio(width, height);
            proof {
                assert(reduced.0 == (width as nat / spec_gcd(
                    width as nat,
                    height as nat,
                )) as u32);
            }
            Some(reduced)
        };

        AspectRatio { frac }
    }

    /// Grabs the width (e.g. "16" in 16:9).
    pub fn width(&self) -> (r: u32)
        ensures
            r == self.spec_width(),
    {
        if let Some(frac) = self.frac {
            return frac.0;
        }
        0u32
    }

    /// Grabs the height (e.g. "9" in 16:9).
    pub fn height(&self) -> (r: u32)
        ensures
            r == self.spec_height(),
    {
        if let Some(frac) = self.frac {
            return frac.1;
        }
        0u32
    }
}

impl From<Resolution> for AspectRatio {
    fn from(value: Resolution) -> (r: AspectRatio) {
        AspectRatio::new(value.width, value.height)
    }
}

impl vstd::std_specs::convert::FromSpecImpl<Resolution> for AspectRatio {
    open spec fn obeys_from_spec() -> bool {
        true
    }

    open spec fn from_spec(value: Resolution) -> AspectRatio {
        spec_aspect_ratio(value.width, value.height)
    }
}

/// The orientation of a media's viewport.
///
/// Note that this can come from both [`Resolution`] and [`AspectRatio`].
#[derive(Clone, Copy, Debug, PartialEq, Eq, PartialOrd, Ord, Hash, Structural)]
pub enum Orientation {
    Portrait,
    Landscape,
    Square,
}

/// The orientation a width/height pair implies.
pub open spec fn spec_orientation(width: u32, height: u32) -> Orientation {
    if width < height {
        Orientation::Portrait
    } else if width == height {
        Orientation::Square
    } else {
        Orientation::Landscape
    }
}

impl From<Resolution> for Orientation {
    fn from(value: Resolution) -> (r: Orientation) {
        if value.width < value.height {
            Orientation::Portrait
        } else if value.width == value.height {
            Orientation::Square
        } else {
            Orientation::Landscape
        }
    }
}

impl vstd::std_specs::convert::FromSpecImpl<Resolution> for Orientation {
    open spec fn obeys_from_spec() -> bool {
        true
    }

    open spec fn from_spec(value: Resolution) -> Orientation {
        spec_orientation(value.width, value.height)
    }
}

impl From<AspectRatio> for Orientation {
    fn from(value: AspectRatio) -> (r: Orientation) {
        let w = value.width();
        let h = value.height();
        if w < h {
            Orientation::Portrait
        } else if w == h {
            Orientation::Square
        } else {
            Orientation::Landscape
        }
    }
}

impl vstd::std_specs::convert::FromSpecImpl<AspectRatio> for Orientation {
    open spec fn obeys_from_spec() -> bool {
        true
    }

    open spec fn from_spec(value: AspectRatio) -> Orientation {
        spec_orientation(value.spec_width(), value.spec_height())
    }
}

} // verus!
