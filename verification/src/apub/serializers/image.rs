use vstd::prelude::*;
use vstd::string::*;

verus! {

pub struct ImageSerializer {
    image_url: String,
}

/// A picture as it is written in a document.
#[derive(Debug, Clone, PartialEq, Eq)]
pub struct SerializedImage {
    pub kind: String,
    pub url: String,
}

impl ImageSerializer {
    pub closed spec fn image_url(&self) -> Seq<char> {
        self.image_url@
    }

    pub fn new(image_url: &str) -> (r: ImageSerializer)
        ensures
            r.image_url() == image_url@,
    {
        ImageSerializer { image_url: String::from_str(image_url) }
    }

    pub fn serialize(self) -> (r: SerializedImage)
        ensures
            r.kind@ == "Image"@,
            r.url@ == self.image_url(),
    {
        SerializedImage { kind: String::from_str("Image"), url: self.image_url }
    }
}

} // verus!
