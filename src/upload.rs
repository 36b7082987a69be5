use vstd::prelude::*;
use crate::error::{AppError, ErrorModel};
use crate::text::has_prefix;

verus! {

/// Largest accepted image, in bytes (5 MB).
pub const MAX_IMAGE_BYTES: usize = 5 * 1024 * 1024;

/// Most images accepted in one batch.
pub const MAX_IMAGES: usize = 5;

/// One part of a multipart upload: its bytes and its declared content type.
pub struct UploadPart {
    pub data: Vec<u8>,
    pub content_type: Option<String>,
}

/// An image accepted for upload, with the content type it is stored under.
pub struct ImageFile {
    pub data: Vec<u8>,
    pub content_type: String,
}

pub struct ImageUploadResponse {
    pub status: String,
    pub url: String,
}

pub struct MultipleImageUploadResponse {
    pub status: String,
    pub urls: Vec<String>,
}

/// The content type a part is taken to have: the declared one, JPEG when none is.
pub open spec fn effective_type(ct: Option<Seq<char>>) -> Seq<char> {
    match ct {
        Some(t) => t,
        None => "image/jpeg"@,
    }
}

pub open spec fn part_type(p: UploadPart) -> Seq<char> {
    effective_type(
        match p.content_type {
            Some(t) => Some(t@),
            None => None,
        },
    )
}

/// Whether a part counts as an image.
pub open spec fn is_image_part(p: UploadPart) -> bool {
    "image/"@.is_prefix_of(part_type(p))
}

/// The image parts of an upload, in order, as (bytes, content type).
pub open spec fn image_parts(parts: Seq<UploadPart>) -> Seq<(Seq<u8>, Seq<char>)>
    decreases parts.len(),
{
    if parts.len() == 0 {
        Seq::empty()
    } else {
        let before = image_parts(parts.drop_last());
        let p = parts.last();
        if is_image_part(p) {
            before.push((p.data@, part_type(p)))
        } else {
            before
        }
    }
}

/// Whether some image of a batch is over the size limit.
pub open spec fn has_oversized(images: Seq<(Seq<u8>, Seq<char>)>) -> bool {
    exists|i: int| 0 <= i < images.len() && images[i].0.len() > MAX_IMAGE_BYTES
}

/// How the single-image check ends: exactly one part is required, and it is the file.
pub open spec fn single_outcome(parts: Seq<UploadPart>) -> Result<(Seq<u8>, Seq<char>), ErrorModel> {
    if parts.len() != 1 {
        Err(ErrorModel::ValidationError("No file provided"@))
    } else if !is_image_part(parts[0]) {
        Err(ErrorModel::ValidationError("Only image files are allowed"@))
    } else if parts[0].data@.len() > MAX_IMAGE_BYTES {
        Err(ErrorModel::ValidationError("File size must be less than 5MB"@))
    } else {
        Ok((parts[0].data@, part_type(parts[0])))
    }
}

/// How the multi-image check ends: parts that are not images are passed over.
pub open spec fn multi_outcome(parts: Seq<UploadPart>) -> Result<
    Seq<(Seq<u8>, Seq<char>)>,
    ErrorModel,
> {
    let images = image_parts(parts);
    if has_oversized(images) {
        Err(ErrorModel::ValidationError("Each file must be less than 5MB"@))
    } else if images.len() == 0 {
        Err(ErrorModel::ValidationError("No files provided"@))
    } else if images.len() > MAX_IMAGES {
        Err(ErrorModel::ValidationError("Maximum 5 images allowed"@))
    } else {
        Ok(images)
    }
}

impl ImageFile {
    pub open spec fn model(&self) -> (Seq<u8>, Seq<char>) {
        (self.data@, self.content_type@)
    }
}

/// The content type a part is taken to have.
fn content_type_of(p: &UploadPart) -> (r: String)
    ensures
        r@ == part_type(*p),
{
    match &p.content_type {
        Some(t) => t.clone(),
        None => String::from_str("image/jpeg"),
    }
}

/// Checks the upload for the single-image endpoint and hands back its file.
pub fn check_single_image(parts: Vec<UploadPart>) -> (r: Result<ImageFile, AppError>)
    ensures
        match single_outcome(parts@) {
            Ok(f) => r matches Ok(x) && x.model() == f,
            Err(e) => r matches Err(x) && x@ == e,
        },
{
    let mut parts = parts;
    if parts.len() != 1 {
        return Err(AppError::ValidationError(String::from_str("No file provided")));
    }
    let part = parts.remove(0);
    let content_type = content_type_of(&part);
    if !has_prefix(content_type.as_str(), "image/") {
        return Err(AppError::ValidationError(String::from_str("Only image files are allowed")));
    }
    if part.data.len() > MAX_IMAGE_BYTES {
        return Err(AppError::ValidationError(String::from_str("File size must be less than 5MB")));
    }
    Ok(ImageFile { data: part.data, content_type })
}

/// Checks the upload for the multi-image endpoint and hands back its images.
pub fn select_images(parts: Vec<UploadPart>) -> (r: Result<Vec<ImageFile>, AppError>)
    ensures
        match multi_outcome(parts@) {
            Ok(imgs) => r matches Ok(v) && v@.len() == imgs.len() && forall|i: int|
                0 <= i < imgs.len() ==> #[trigger] v@[i].model() == imgs[i],
            Err(e) => r matches Err(x) && x@ == e,
        },
{
    let ghost all = parts@;
    let mut rest = parts;
    let mut files: Vec<ImageFile> = Vec::new();
    let ghost mut taken: int = 0;
    while rest.len() > 0
        invariant
            all == parts@,
            0 <= taken <= all.len(),
            rest@ == all.subrange(taken, all.len() as int),
            files@.len() == image_parts(all.subrange(0, taken)).len(),
            forall|i: int|
                0 <= i < files@.len() ==> #[trigger] files@[i].model() == image_parts(
                    all.subrange(0, taken),
                )[i],
            !has_oversized(image_parts(all.subrange(0, taken))),
        decreases rest@.len(),
    {
        let part = rest.remove(0);
        proof {
            assert(all.subrange(0, taken + 1).drop_last() =~= all.subrange(0, taken));
            assert(all.subrange(0, taken + 1).last() == part);
            taken = taken + 1;
        }
        let content_type = content_type_of(&part);
        if has_prefix(content_type.as_str(), "image/") {
            if part.data.len() > MAX_IMAGE_BYTES {
                proof {
                    assert(all[taken - 1] == part);
                    assert(is_image_part(part));
                    lemma_oversized_stays(all, taken);
                    assert(has_oversized(image_parts(all)));
                    assert(multi_outcome(all) == Err::<Seq<(Seq<u8>, Seq<char>)>, ErrorModel>(
                        ErrorModel::ValidationError("Each file must be less than 5MB"@),
                    ));
                }
                return Err(AppError::ValidationError(String::from_str("Each file must be less than 5MB")));
            }
            files.push(ImageFile { data: part.data, content_type });
        }
    }
    assert(all.subrange(0, taken) =~= all);
    if files.len() == 0 {
        return Err(AppError::ValidationError(String::from_str("No files provided")));
    }
    if files.len() > MAX_IMAGES {
        return Err(AppError::ValidationError(String::from_str("Maximum 5 images allowed")));
    }
    Ok(files)
}

/// A single part over 5 MB is refused by the single-image check, whatever its type.
pub proof fn lemma_oversized_single_refused(parts: Seq<UploadPart>)
    requires
        parts.len() == 1,
        parts[0].data@.len() > MAX_IMAGE_BYTES,
    ensures
        single_outcome(parts) matches Err(ErrorModel::ValidationError(_)),
{
}

/// More than five images, none of them oversized, are refused as a batch.
pub proof fn lemma_too_many_images_refused(parts: Seq<UploadPart>)
    requires
        image_parts(parts).len() > MAX_IMAGES,
        !has_oversized(image_parts(parts)),
    ensures
        multi_outcome(parts) == Err::<Seq<(Seq<u8>, Seq<char>)>, ErrorModel>(
            ErrorModel::ValidationError("Maximum 5 images allowed"@),
        ),
{
}

/// The images of a prefix stay at the front of the images of any longer prefix.
proof fn lemma_image_parts_grow(all: Seq<UploadPart>, k: int, n: int)
    requires
        0 <= k <= n <= all.len(),
    ensures
        image_parts(all.subrange(0, k)).len() <= image_parts(all.subrange(0, n)).len(),
        forall|i: int|
            0 <= i < image_parts(all.subrange(0, k)).len() ==> image_parts(all.subrange(0, n))[i]
                == image_parts(all.subrange(0, k))[i],
    decreases n - k,
{
    if k < n {
        lemma_image_parts_grow(all, k, n - 1);
        assert(all.subrange(0, n).drop_last() =~= all.subrange(0, n - 1));
    }
}

/// Once a prefix holds an oversized image, the whole upload does.
proof fn lemma_oversized_stays(all: Seq<UploadPart>, k: int)
    requires
        0 < k <= all.len(),
        is_image_part(all[k - 1]),
        all[k - 1].data@.len() > MAX_IMAGE_BYTES,
    ensures
        has_oversized(image_parts(all)),
{
    assert(all.subrange(0, k).drop_last() =~= all.subrange(0, k - 1));
    assert(all.subrange(0, k).last() == all[k - 1]);
    let pre = image_parts(all.subrange(0, k));
    let j = pre.len() - 1;
    assert(pre[j].0.len() > MAX_IMAGE_BYTES);
    lemma_image_parts_grow(all, k, all.len() as int);
    assert(all.subrange(0, all.len() as int) =~= all);
    assert(image_parts(all)[j] == pre[j]);
}

} // verus!
