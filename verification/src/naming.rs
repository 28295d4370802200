use vstd::prelude::*;
use vstd::string::*;

verus! {

/// The media type assumed when nothing better is known.
pub const DEFAULT_MEDIA_TYPE: &'static str = "application/octet-stream";

/// The file name assumed when the uploader gave none.
pub const DEFAULT_FILE_NAME: &'static str = "file";

/// A hexadecimal digit, letters small.
pub open spec fn is_lower_hex(c: char) -> bool {
    ('0' <= c && c <= '9') || ('a' <= c && c <= 'f')
}

/// Where the hyphens stand in an object identifier.
pub open spec fn is_hyphen_position(i: int) -> bool {
    i == 8 || i == 13 || i == 18 || i == 23
}

/// The shape of a generated object identifier: thirty-two small hexadecimal
/// digits in five groups, the groups parted by hyphens.
pub open spec fn is_object_id(id: Seq<char>) -> bool {
    &&& id.len() == 36
    &&& forall|i: int|
        0 <= i < 36 ==> if is_hyphen_position(i) {
            #[trigger] id[i] == '-'
        } else {
            is_lower_hex(id[i])
        }
}

/// The shape of a file extension: it holds neither a dot nor a slash.
pub open spec fn is_extension(ext: Seq<char>) -> bool {
    forall|i: int| 0 <= i < ext.len() ==> #[trigger] ext[i] != '.' && ext[i] != '/'
}

/// Whether a name holds a dot.
pub open spec fn has_dot(name: Seq<char>) -> bool {
    exists|i: int| 0 <= i < name.len() && #[trigger] name[i] == '.'
}

/// A name that is no path: it holds no slash, no backslash and no colon, so
/// that on every system it is read as a single path component.
pub open spec fn is_plain_name(name: Seq<char>) -> bool {
    forall|i: int|
        0 <= i < name.len() ==> #[trigger] name[i] != '/' && name[i] != '\\' && name[i] != ':'
}

/// The index of the last dot of a name, and -1 for a name without a dot.
pub open spec fn last_dot(name: Seq<char>) -> int
    decreases name.len(),
{
    if name.len() == 0 {
        -1
    } else if name.last() == '.' {
        name.len() - 1
    } else {
        last_dot(name.drop_last())
    }
}

/// The extension of a plain name: what stands behind its last dot. A name
/// without a dot has none, nor has one whose only dot is its first
/// character, nor has the name `..`.
pub open spec fn plain_extension(name: Seq<char>) -> Option<Seq<char>> {
    if last_dot(name) <= 0 || name == seq!['.', '.'] {
        None
    } else {
        Some(name.subrange(last_dot(name) + 1, name.len() as int))
    }
}

/// The text of the first media type that the `mime_guess` table lists for a
/// file extension, if it lists any.
pub uninterp spec fn guessed_media_type(extension: Seq<char>) -> Option<Seq<char>>;

/// Draws a random version-4 UUID with `uuid::Uuid::new_v4` and renders it with
/// its `Display` impl. Trusted: the rendering is the hyphenated form in small
/// hexadecimal digits, thirty-six characters long. On a machine that gives no
/// random bytes the call does not return.
#[verifier::external_body]
pub(crate) fn random_object_id() -> (id: String)
    ensures
        is_object_id(id@),
{
    uuid::Uuid::new_v4().to_string()
}

/// Asks `std::path::Path::extension` for the extension of a file name.
/// Trusted: the extension is the part of the last path component behind its
/// last dot, so it holds no dot and no path separator, and a name without any
/// dot has none. A plain name is its own last component, so its extension is
/// what stands behind its last dot, and there is none where that dot is the
/// first character of the name or the name is `..`.
#[verifier::external_body]
pub(crate) fn path_extension(name: &str) -> (ext: Option<String>)
    ensures
        ext matches Some(e) ==> is_extension(e@),
        ext is Some ==> has_dot(name@),
        is_plain_name(name@) ==> ext.deep_view() == plain_extension(name@),
{
    std::path::Path::new(name).extension().and_then(|e| e.to_str()).map(|e| e.to_string())
}

/// Looks an extension up with `mime_guess::from_ext` and takes the first
/// guess. Trusted: the answer depends on the extension alone, and the empty
/// extension has no guess.
#[verifier::external_body]
fn guess_media_type(extension: &str) -> (guess: Option<String>)
    ensures
        guess.deep_view() == guessed_media_type(extension@),
        extension@.len() == 0 ==> guess is None,
{
    mime_guess::from_ext(extension).first().map(|m| m.to_string())
}

/// The name of an object inside its backend namespace: the identifier, and
/// behind it a dot and the extension where there is a non-empty one.
pub open spec fn object_name(id: Seq<char>, extension: Option<Seq<char>>) -> Seq<char> {
    match extension {
        Some(e) => if e.len() > 0 {
            id + seq!['.'] + e
        } else {
            id
        },
        None => id,
    }
}

/// A namespace joined with an object name by a single slash. An empty
/// namespace, or one that already ends in a slash, takes no further slash.
pub open spec fn joined(namespace: Seq<char>, name: Seq<char>) -> Seq<char> {
    if namespace.len() == 0 || namespace.last() == '/' {
        namespace + name
    } else {
        namespace + seq!['/'] + name
    }
}

/// The backend address of the object `id` stored under `namespace`.
pub open spec fn address(namespace: Seq<char>, id: Seq<char>, extension: Option<Seq<char>>) -> Seq<
    char,
> {
    joined(namespace, object_name(id, extension))
}

/// Which media type a record gets: the explicit one, else the guess.
pub open spec fn chosen_media_type(
    explicit: Option<Seq<char>>,
    guessed: Option<Seq<char>>,
) -> Option<Seq<char>> {
    match explicit {
        Some(t) => Some(t),
        None => guessed,
    }
}

/// The media type to announce for a record: its own, else the generic one.
pub open spec fn effective_media_type(recorded: Option<Seq<char>>) -> Seq<char> {
    match recorded {
        Some(t) => t,
        None => DEFAULT_MEDIA_TYPE@,
    }
}

/// The media type that the extension suggests, if any.
pub fn media_type_for_extension(extension: &Option<String>) -> (guess: Option<String>)
    ensures
        guess.deep_view() == match extension.deep_view() {
            Some(e) => guessed_media_type(e),
            None => None,
        },
{
    match extension {
        Some(e) => guess_media_type(e.as_str()),
        None => None,
    }
}

/// Builds the name of an object from its identifier and extension.
pub fn build_object_name(id: &str, extension: &Option<String>) -> (name: String)
    ensures
        name@ == object_name(id@, extension.deep_view()),
{
    let mut name = String::from_str(id);
    match extension {
        Some(e) => {
            if e.as_str().unicode_len() > 0 {
                proof {
                    reveal_strlit(".");
                }
                name.append(".");
                name.append(e.as_str());
            }
        },
        None => {},
    }
    name
}

/// Joins a namespace and an object name.
pub fn join(namespace: &str, name: &str) -> (path: String)
    ensures
        path@ == joined(namespace@, name@),
{
    let n = namespace.unicode_len();
    let mut path = String::from_str(namespace);
    if n > 0 && namespace.get_char(n - 1) != '/' {
        proof {
            reveal_strlit("/");
        }
        path.append("/");
    }
    path.append(name);
    path
}

/// Builds the backend address of an object.
pub fn build_address(namespace: &str, id: &str, extension: &Option<String>) -> (location: String)
    ensures
        location@ == address(namespace@, id@, extension.deep_view()),
{
    let name = build_object_name(id, extension);
    join(namespace, name.as_str())
}

/// Chooses the media type to record: an explicit content type wins over the
/// guess from the extension.
pub fn choose_media_type(explicit: Option<&str>, guessed: Option<String>) -> (chosen: Option<String>)
    ensures
        chosen.deep_view() == chosen_media_type(
            match explicit {
                Some(t) => Some(t@),
                None => None,
            },
            guessed.deep_view(),
        ),
{
    match explicit {
        Some(t) => Some(String::from_str(t)),
        None => guessed,
    }
}

/// The media type to announce for a record: its own, else the generic one.
pub fn media_type_or_default(recorded: &Option<String>) -> (text: String)
    ensures
        text@ == effective_media_type(recorded.deep_view()),
{
    match recorded {
        Some(t) => t.clone(),
        None => String::from_str(DEFAULT_MEDIA_TYPE),
    }
}

/// Two addresses in one namespace are equal only if they were built from the
/// same identifier, whatever the extensions: uploads that share a name hint
/// collide only if their random identifiers do.
pub proof fn lemma_address_determines_id(
    namespace: Seq<char>,
    id_a: Seq<char>,
    extension_a: Option<Seq<char>>,
    id_b: Seq<char>,
    extension_b: Option<Seq<char>>,
)
    requires
        is_object_id(id_a),
        is_object_id(id_b),
        address(namespace, id_a, extension_a) == address(namespace, id_b, extension_b),
    ensures
        id_a == id_b,
{
    let start: int = if namespace.len() == 0 || namespace.last() == '/' {
        namespace.len() as int
    } else {
        (namespace.len() + 1) as int
    };
    let whole_a = address(namespace, id_a, extension_a);
    let whole_b = address(namespace, id_b, extension_b);
    assert(whole_a.subrange(start, start + 36) =~= id_a);
    assert(whole_b.subrange(start, start + 36) =~= id_b);
}

/// The name of an object holds no slash, so an address never leaves its
/// namespace, whatever file name the uploader sent.
pub proof fn lemma_object_name_is_flat(id: Seq<char>, extension: Option<Seq<char>>)
    requires
        is_object_id(id),
        extension matches Some(e) ==> is_extension(e),
    ensures
        forall|i: int|
            0 <= i < object_name(id, extension).len() ==> #[trigger] object_name(id, extension)[i]
                != '/',
{
    let name = object_name(id, extension);
    assert forall|i: int| 0 <= i < name.len() implies #[trigger] name[i] != '/' by {
        if i < 36 {
            assert(name[i] == id[i]);
        } else if i > 36 {
            assert(name[i] == extension->0[i - 37]);
        }
    }
}

} // verus!
