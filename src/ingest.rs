use vstd::prelude::*;
use vstd::string::StringExecFns;
use crate::clock::{now_millis, paris_rfc3339, paris_rfc3339_of};
use crate::codec::{is_decodable, is_model_input, preprocess, rgb8_resized_of, Preprocessed, SIDE};
use crate::decimal::{decimal, push_decimal};

verus! {

/// Relies on `rand::random`: a value drawn from the thread-local generator. Nothing is known
/// of it.
pub assume_specification<T>[ rand::random::<T> ]() -> (r: T)
    where
        rand::distributions::Standard: rand::distributions::Distribution<T>,
;

/// Length of the embedding vector that the model produces.
pub const EMBEDDING_DIMENSIONS: usize = 512;

/// Why one image could not be ingested.
#[derive(Debug, Clone, Copy, PartialEq, Eq, Structural)]
pub enum IngestError {
    /// The bytes are not a decodable image; nothing was written or sent.
    Decode,
    /// The model's output could not be read as an embedding of the expected length.
    Inference,
    /// The processed image could not be written to disk.
    Save,
    /// The record could not be written to the vector store.
    Store,
}

/// The stored image of record `id` under directory `dir`: `<dir>/<id>.jpg`.
pub open spec fn image_path_of(dir: Seq<char>, id: u32) -> Seq<char> {
    dir + seq!['/'] + decimal(id as nat) + seq!['.', 'j', 'p', 'g']
}

/// The path `<dir>/<id>.jpg` at which the processed image of record `id` is kept.
pub fn image_path(dir: &str, id: u32) -> (r: String)
    ensures
        r@ == image_path_of(dir@, id),
{
    let mut s = String::from_str(dir);
    s.append("/");
    push_decimal(&mut s, id as u64);
    s.append(".jpg");
    proof {
        reveal_strlit("/");
        reveal_strlit(".jpg");
        assert(s@ =~= image_path_of(dir@, id));
    }
    s
}

/// The metadata of one face record; its embedding is attached by whoever runs the model.
#[derive(Debug, Clone, PartialEq, Eq)]
pub struct FaceRecord {
    pub id: u32,
    pub name: Option<String>,
    pub source_url: Option<String>,
    /// RFC 3339 time of ingestion, in the Europe/Paris time zone.
    pub date: Option<String>,
}

/// Whether the record carries a date: the Europe/Paris RFC 3339 text of some instant.
pub open spec fn is_stamped(record: FaceRecord) -> bool {
    record.date matches Some(d) && exists|t: int| d@ == paris_rfc3339_of(t)
}

/// Sets the record's date to the current time, just before the record is written; the other
/// fields stay as they were.
pub fn stamp_date(record: &mut FaceRecord)
    ensures
        final(record).id == old(record).id,
        final(record).name == old(record).name,
        final(record).source_url == old(record).source_url,
        is_stamped(*final(record)),
{
    record.date = paris_rfc3339(now_millis());
}

/// Everything one image's ingestion needs after decoding: the model input, the record to
/// store, and the path at which to keep the processed image.
pub struct IngestPlan {
    pub preprocessed: Preprocessed,
    pub record: FaceRecord,
    pub image_path: String,
}

/// Decodes and preprocesses one image and prepares its record: a fresh random identifier,
/// the given metadata, the current time (which `stamp_date` renews when the record is
/// written), and the image path derived from the identifier.
/// Undecodable bytes give `Decode` and no plan, so nothing is written or sent for them.
pub fn plan_ingest(bytes: &[u8], imgs_dir: &str, source_url: Option<String>, name: Option<String>) -> (r: Result<IngestPlan, IngestError>)
    ensures
        r is Ok <==> is_decodable(bytes@),
        r is Err ==> r == Err::<IngestPlan, IngestError>(IngestError::Decode),
        r matches Ok(p) ==> {
            &&& is_model_input(p.preprocessed)
            &&& p.preprocessed.pixels@ == rgb8_resized_of(bytes@, SIDE, SIDE)
            &&& p.image_path@ == image_path_of(imgs_dir@, p.record.id)
            &&& p.record.name == name
            &&& p.record.source_url == source_url
            &&& is_stamped(p.record)
        },
{
    let preprocessed = match preprocess(bytes) {
        Ok(p) => p,
        Err(_) => {
            return Err(IngestError::Decode);
        },
    };
    let id: u32 = rand::random::<u32>();
    let path = image_path(imgs_dir, id);
    let now = now_millis();
    let date = paris_rfc3339(now);
    let record = FaceRecord { id, name, source_url, date };
    Ok(IngestPlan { preprocessed, record, image_path: path })
}

/// Checks that the model returned an embedding of the expected length.
pub fn check_embedding_len(len: usize) -> (r: Result<(), IngestError>)
    ensures
        r is Ok <==> len == EMBEDDING_DIMENSIONS,
        r is Err ==> r == Err::<(), IngestError>(IngestError::Inference),
{
    if len == EMBEDDING_DIMENSIONS {
        Ok(())
    } else {
        Err(IngestError::Inference)
    }
}

/// The HTTP status of an upload: success and a skipped undecodable image answer 200, a
/// failure after decoding answers 500.
pub fn upload_status(outcome: &Result<(), IngestError>) -> (r: u16)
    ensures
        r == (match outcome {
            Ok(_) => 200u16,
            Err(IngestError::Decode) => 200u16,
            Err(_) => 500u16,
        }),
{
    match outcome {
        Ok(_) => 200,
        Err(IngestError::Decode) => 200,
        Err(_) => 500,
    }
}

} // verus!
