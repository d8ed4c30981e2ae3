use vstd::prelude::*;
use vstd::string::*;

verus! {

/// A stored bucket: its label and the audience it belongs to.
#[derive(Debug, Clone, PartialEq, Eq, Hash)]
pub struct Bucket {
    label: String,
    audience: String,
}

impl Bucket {
    pub closed spec fn spec_label(&self) -> Seq<char> {
        self.label@
    }

    pub closed spec fn spec_audience(&self) -> Seq<char> {
        self.audience@
    }

    /// The text form `{label}.{audience}`.
    pub open spec fn spec_text(&self) -> Seq<char> {
        self.spec_label() + seq!['.'] + self.spec_audience()
    }

    pub fn new(label: &str, audience: &str) -> (r: Self)
        ensures
            r.spec_label() == label@,
            r.spec_audience() == audience@,
    {
        Bucket { label: String::from_str(label), audience: String::from_str(audience) }
    }

    pub fn label(&self) -> (r: &str)
        ensures
            r@ == self.spec_label(),
    {
        self.label.as_str()
    }

    pub fn audience(&self) -> (r: &str)
        ensures
            r@ == self.spec_audience(),
    {
        self.audience.as_str()
    }

    /// The bucket written as `{label}.{audience}`.
    pub fn to_string(&self) -> (r: String)
        ensures
            r@ == self.spec_text(),
    {
        proof {
            reveal_strlit(".");
        }
        let mut text = self.label.clone();
        text.append(".");
        text.append(self.audience.as_str());
        text
    }
}

/// A stored set of objects: its label and the bucket that holds it.
#[derive(Debug, Clone, PartialEq, Eq, Hash)]
pub struct BucketSet {
    label: String,
    bucket: Bucket,
}

impl BucketSet {
    pub closed spec fn spec_label(&self) -> Seq<char> {
        self.label@
    }

    pub closed spec fn spec_bucket(&self) -> Bucket {
        self.bucket
    }

    /// The text form `{bucket}:{label}`.
    pub open spec fn spec_text(&self) -> Seq<char> {
        self.spec_bucket().spec_text() + seq![':'] + self.spec_label()
    }

    pub fn new(label: &str, bucket: Bucket) -> (r: Self)
        ensures
            r.spec_label() == label@,
            r.spec_bucket() == bucket,
    {
        BucketSet { label: String::from_str(label), bucket }
    }

    pub fn label(&self) -> (r: &str)
        ensures
            r@ == self.spec_label(),
    {
        self.label.as_str()
    }

    pub fn bucket(&self) -> (r: &Bucket)
        ensures
            *r == self.spec_bucket(),
    {
        &self.bucket
    }

    /// The set written as `{label of bucket}.{audience}:{label}`.
    pub fn to_string(&self) -> (r: String)
        ensures
            r@ == self.spec_text(),
    {
        proof {
            reveal_strlit(":");
        }
        let mut text = self.bucket.to_string();
        text.append(":");
        text.append(self.label.as_str());
        text
    }
}

} // verus!
