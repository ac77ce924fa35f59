use crate::text::chars_of;
use vstd::prelude::*;

verus! {

/// The bucket used where a destination names none.
pub open spec fn default_bucket() -> Seq<char> {
    "default"@
}

/// An optional string as an optional character sequence.
pub open spec fn opt_view(o: Option<String>) -> Option<Seq<char>> {
    match o {
        Some(s) => Some(s@),
        None => None,
    }
}

/// The bucket a request addresses: the one given, else the default one.
pub open spec fn bucket_or_default(b: Option<Seq<char>>) -> Seq<char> {
    match b {
        Some(b) => b,
        None => default_bucket(),
    }
}

/// Returns the given bucket, or the default one where none is given.
pub(crate) fn bucket_or_default_of(b: Option<&String>) -> (r: String)
    ensures
        r@ == bucket_or_default(
            match b {
                Some(s) => Some(s@),
                None => None,
            },
        ),
{
    match b {
        Some(s) => s.clone(),
        None => "default".to_owned(),
    }
}

/// A language code as requests carry it (ISO 639-3, such as `eng`): one or
/// more lowercase ASCII letters.
pub open spec fn is_lang_code(s: Seq<char>) -> bool {
    s.len() > 0 && forall|i: int| 0 <= i < s.len() ==> 97 <= (#[trigger] s[i] as u32) <= 122
}

/// The language of a request's text, by its code.
#[derive(Debug, PartialEq, Eq)]
pub struct LangCode {
    code: String,
}

impl View for LangCode {
    type V = Seq<char>;

    closed spec fn view(&self) -> Seq<char> {
        self.code@
    }
}

/// An optional language as its optional code.
pub open spec fn lang_view(o: Option<LangCode>) -> Option<Seq<char>> {
    match o {
        Some(l) => Some(l@),
        None => None,
    }
}

/// An optional language is absent or a well-formed code.
pub open spec fn lang_valid(o: Option<LangCode>) -> bool {
    match o {
        Some(l) => is_lang_code(l@),
        None => true,
    }
}

impl LangCode {
    #[verifier::type_invariant]
    closed spec fn inv(&self) -> bool {
        is_lang_code(self.code@)
    }

    /// The language with code `code`, where it is a well-formed code.
    pub fn new(code: &str) -> (r: Option<LangCode>)
        ensures
            match r {
                Some(l) => is_lang_code(code@) && l@ == code@,
                None => !is_lang_code(code@),
            },
    {
        let cs = chars_of(code);
        if cs.len() == 0 {
            return None;
        }
        let mut i: usize = 0;
        while i < cs.len()
            invariant
                cs@ == code@,
                i <= cs.len(),
                forall|k: int| 0 <= k < i ==> 97 <= (#[trigger] code@[k] as u32) <= 122,
            decreases cs.len() - i,
        {
            let u = cs[i] as u32;
            if u < 97 || u > 122 {
                return None;
            }
            i = i + 1;
        }
        Some(LangCode { code: code.to_owned() })
    }

    /// The code.
    pub fn as_str(&self) -> (r: &str)
        ensures
            r@ == self@,
            is_lang_code(r@),
    {
        proof {
            use_type_invariant(self);
        }
        self.code.as_str()
    }

    /// A copy of the language.
    pub fn duplicate(&self) -> (r: LangCode)
        ensures
            r@ == self@,
    {
        proof {
            use_type_invariant(self);
        }
        LangCode { code: self.code.clone() }
    }
}

impl Clone for LangCode {
    fn clone(&self) -> (r: LangCode) {
        self.duplicate()
    }
}

/// Copies an optional language.
pub(crate) fn clone_lang(o: &Option<LangCode>) -> (r: Option<LangCode>)
    ensures
        lang_view(r) == lang_view(*o),
{
    match o {
        Some(l) => Some(l.duplicate()),
        None => None,
    }
}

/// Objects destination: a collection and, optionally, a bucket.
#[derive(Debug, Clone)]
pub struct Dest {
    collection: String,
    bucket: Option<String>,
}

pub struct DestView {
    pub collection: Seq<char>,
    pub bucket: Option<Seq<char>>,
}

impl View for Dest {
    type V = DestView;

    closed spec fn view(&self) -> DestView {
        DestView { collection: self.collection@, bucket: opt_view(self.bucket) }
    }
}

impl Dest {
    /// A destination with a collection and a bucket.
    pub fn col_buc(c: &str, b: &str) -> (r: Dest)
        ensures
            r@.collection == c@,
            r@.bucket == Some(b@),
    {
        Self::col(c).buc(b)
    }

    /// A destination with a collection and no bucket.
    pub fn col(c: &str) -> (r: Dest)
        ensures
            r@.collection == c@,
            r@.bucket == None::<Seq<char>>,
    {
        Dest { collection: c.to_owned(), bucket: None }
    }

    /// The destination with its bucket set to `b`.
    pub fn buc(self, b: &str) -> (r: Dest)
        ensures
            r@.collection == self@.collection,
            r@.bucket == Some(b@),
    {
        let mut d = self;
        d.bucket = Some(b.to_owned());
        d
    }

    /// The object destination for object `o` in this destination.
    pub fn obj(self, o: &str) -> (r: ObjDest)
        ensures
            r@.collection == self@.collection,
            r@.bucket == bucket_or_default(self@.bucket),
            r@.object == o@,
    {
        ObjDest::new(self, o)
    }

    /// The collection.
    pub fn collection(&self) -> (r: &String)
        ensures
            r@ == self@.collection,
    {
        &self.collection
    }

    /// The bucket, where one is set.
    pub fn bucket_opt(&self) -> (r: Option<&String>)
        ensures
            match r {
                Some(b) => self@.bucket == Some(b@),
                None => self@.bucket is None,
            },
    {
        match &self.bucket {
            Some(b) => Some(b),
            None => None,
        }
    }
}

/// Object destination: a collection, a bucket and an object. An object
/// destination always names its bucket: where the base destination has none,
/// it is the default bucket.
#[derive(Debug)]
pub struct ObjDest(Dest, String);

pub struct ObjDestView {
    pub collection: Seq<char>,
    pub bucket: Seq<char>,
    pub object: Seq<char>,
}

impl View for ObjDest {
    type V = ObjDestView;

    closed spec fn view(&self) -> ObjDestView {
        ObjDestView {
            collection: self.0.collection@,
            bucket: bucket_or_default(opt_view(self.0.bucket)),
            object: self.1@,
        }
    }
}

impl ObjDest {
    /// The destination of object `o` within `cb`.
    pub fn new(cb: Dest, o: &str) -> (r: ObjDest)
        ensures
            r@.collection == cb@.collection,
            r@.bucket == bucket_or_default(cb@.bucket),
            r@.object == o@,
    {
        ObjDest(cb, o.to_owned())
    }

    /// The collection.
    pub fn collection(&self) -> (r: &String)
        ensures
            r@ == self@.collection,
    {
        self.0.collection()
    }

    /// The bucket as it was given; `None` where the default bucket applies.
    pub fn bucket_opt(&self) -> (r: Option<&String>)
        ensures
            match r {
                Some(b) => self@.bucket == b@,
                None => self@.bucket == default_bucket(),
            },
    {
        self.0.bucket_opt()
    }

    /// The bucket, the default one where none was given.
    pub fn bucket(&self) -> (r: String)
        ensures
            r@ == self@.bucket,
    {
        bucket_or_default_of(self.0.bucket_opt())
    }

    /// The object id.
    pub fn object(&self) -> (r: &String)
        ensures
            r@ == self@.object,
    {
        &self.1
    }
}

/// A destination at any of the three levels: collection, bucket or object.
/// An object is only ever given together with a bucket.
#[derive(Debug)]
pub(crate) struct OptDest {
    pub(crate) collection: String,
    pub(crate) bucket: Option<String>,
    pub(crate) object: Option<String>,
}

/// Copies an optional string.
pub(crate) fn clone_opt(o: &Option<String>) -> (r: Option<String>)
    ensures
        opt_view(r) == opt_view(*o),
        r is Some <==> o is Some,
{
    match o {
        Some(s) => Some(s.clone()),
        None => None,
    }
}

impl OptDest {
    /// Collection, bucket and object.
    pub(crate) open spec fn parts(&self) -> (Seq<char>, Option<Seq<char>>, Option<Seq<char>>) {
        (self.collection@, opt_view(self.bucket), opt_view(self.object))
    }

    #[verifier::type_invariant]
    pub(crate) open spec fn wf(&self) -> bool {
        self.object is Some ==> self.bucket is Some
    }

    pub(crate) fn col(c: &str) -> (r: OptDest)
        ensures
            r.collection@ == c@,
            r.bucket is None,
            r.object is None,
    {
        OptDest { collection: c.to_owned(), bucket: None, object: None }
    }

    pub(crate) fn col_buc(c: &str, b: &str) -> (r: OptDest)
        ensures
            r.collection@ == c@,
            opt_view(r.bucket) == Some(b@),
            r.object is None,
    {
        OptDest { collection: c.to_owned(), bucket: Some(b.to_owned()), object: None }
    }

    pub(crate) fn col_buc_obj(c: &str, b: &str, o: &str) -> (r: OptDest)
        ensures
            r.collection@ == c@,
            opt_view(r.bucket) == Some(b@),
            opt_view(r.object) == Some(o@),
    {
        OptDest {
            collection: c.to_owned(),
            bucket: Some(b.to_owned()),
            object: Some(o.to_owned()),
        }
    }

    pub(crate) fn from_dest(d: Dest) -> (r: OptDest)
        ensures
            r.collection@ == d@.collection,
            opt_view(r.bucket) == d@.bucket,
            r.object is None,
    {
        OptDest { collection: d.collection, bucket: d.bucket, object: None }
    }

    pub(crate) fn from_obj_dest(d: ObjDest) -> (r: OptDest)
        ensures
            r.collection@ == d@.collection,
            opt_view(r.bucket) == Some(d@.bucket),
            opt_view(r.object) == Some(d@.object),
    {
        let bucket = d.bucket();
        let ObjDest(base, object) = d;
        OptDest { collection: base.collection, bucket: Some(bucket), object: Some(object) }
    }
}

} // verus!
