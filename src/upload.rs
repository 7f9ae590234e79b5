use vstd::prelude::*;
use crate::crypto::{hmac_sha256, hmac_sha256_of, sha256, sha256_of};
use crate::text::{
    append_chars, append_str, chars_of, hex_encode, hex_lower, matches_at, slice_of, string_of,
};
use vstd::utf8::encode_utf8;
use crate::streaming::str_eq;

verus! {

/// The short-lived upload credentials and the object's place in the bucket.
#[derive(Debug, Clone)]
pub struct StsTokenData {
    pub access_key_id: String,
    pub access_key_secret: String,
    pub security_token: String,
    pub file_url: String,
    pub file_path: String,
    pub file_id: String,
    pub bucketname: String,
    pub region: String,
    pub endpoint: String,
}

/// The user agent that the signed headers carry.
pub open spec fn oss_user_agent() -> Seq<char> {
    "aliyun-sdk-js/6.23.0 Chrome 142.0.0.0 on OS X 10.15.7 64-bit"@
}

/// The region without its `oss-` prefix.
pub open spec fn short_region(region: Seq<char>) -> Seq<char> {
    if region.len() >= 4 && region.take(4) == "oss-"@ {
        region.skip(4)
    } else {
        region
    }
}

/// `/<bucket>/<path>`.
pub open spec fn canonical_uri(bucket: Seq<char>, path: Seq<char>) -> Seq<char> {
    "/"@ + bucket + "/"@ + path
}

/// The canonical request of a PUT with an unsigned payload.
pub open spec fn canonical_request(
    uri: Seq<char>,
    content_type: Seq<char>,
    date: Seq<char>,
    token: Seq<char>,
) -> Seq<char> {
    "PUT\n"@ + uri + "\n\n"@ + ("content-type:"@ + content_type
        + "\nx-oss-content-sha256:UNSIGNED-PAYLOAD\nx-oss-date:"@ + date
        + "\nx-oss-security-token:"@ + token + "\nx-oss-user-agent:"@ + oss_user_agent() + "\n"@)
        + "\n\nUNSIGNED-PAYLOAD"@
}

/// `<day>/<region>/oss/aliyun_v4_request`.
pub open spec fn scope(day: Seq<char>, region: Seq<char>) -> Seq<char> {
    day + "/"@ + region + "/oss/aliyun_v4_request"@
}

/// The string to sign: algorithm, date, scope, hex digest of the canonical request.
pub open spec fn string_to_sign(date: Seq<char>, day: Seq<char>, region: Seq<char>, request: Seq<char>) -> Seq<char> {
    "OSS4-HMAC-SHA256\n"@ + date + "\n"@ + scope(day, region) + "\n"@ + hex_lower(
        sha256_of(encode_utf8(request)),
    )
}

/// The signing key: secret, then day, region, service and request type, each
/// through HMAC-SHA256.
pub open spec fn signing_key(secret: Seq<char>, day: Seq<char>, region: Seq<char>) -> Seq<u8> {
    let k_date = hmac_sha256_of(encode_utf8("aliyun_v4"@ + secret), encode_utf8(day));
    let k_region = hmac_sha256_of(k_date, encode_utf8(region));
    let k_service = hmac_sha256_of(k_region, encode_utf8("oss"@));
    hmac_sha256_of(k_service, encode_utf8("aliyun_v4_request"@))
}

/// The authorization header for uploading an object of `content_type` to
/// `/<bucket>/<path>` at the time `date` (`YYYYMMDDTHHMMSSZ`).
pub open spec fn oss_authorization_of(
    key_id: Seq<char>,
    secret: Seq<char>,
    token: Seq<char>,
    bucket: Seq<char>,
    path: Seq<char>,
    region: Seq<char>,
    content_type: Seq<char>,
    date: Seq<char>,
) -> Seq<char> {
    let day = date.take(8);
    let reg = short_region(region);
    let request = canonical_request(canonical_uri(bucket, path), content_type, date, token);
    let sts = string_to_sign(date, day, reg, request);
    "OSS4-HMAC-SHA256 Credential="@ + (key_id + "/"@ + scope(day, reg)) + ",Signature="@
        + hex_lower(hmac_sha256_of(signing_key(secret, day, reg), encode_utf8(sts)))
}

/// Signs direct-to-bucket uploads.
pub struct FileUploader;

impl FileUploader {
    /// The authorization header for a PUT of an object of `content_type` with the
    /// credentials and place of `sts`, at the time `oss_date` (`YYYYMMDDTHHMMSSZ`).
    /// A function of its arguments alone.
    pub fn oss_authorization(sts: &StsTokenData, content_type: &str, oss_date: &str) -> (r: String)
        requires
            oss_date@.len() >= 8,
        ensures
            r@ == oss_authorization_of(
                sts.access_key_id@,
                sts.access_key_secret@,
                sts.security_token@,
                sts.bucketname@,
                sts.file_path@,
                sts.region@,
                content_type@,
                oss_date@,
            ),
    {
        let date = chars_of(oss_date);
        let day = slice_of(&date, 0, 8);
        assert(day@ =~= oss_date@.take(8));
        let region_chars = chars_of(sts.region.as_str());
        proof { reveal_strlit("oss-"); }
        let reg = if region_chars.len() >= 4 && matches_at(&region_chars, &chars_of("oss-"), 0) {
            let v = slice_of(&region_chars, 4, region_chars.len());
            assert(v@ =~= region_chars@.skip(4));
            assert(region_chars@.take(4) =~= region_chars@.subrange(0, 4));
            v
        } else {
            proof {
                if region_chars.len() >= 4 {
                    assert(region_chars@.take(4) =~= region_chars@.subrange(0, 4));
                }
            }
            region_chars
        };
        assert(reg@ == short_region(sts.region@));
        // canonical request
        let mut request: Vec<char> = Vec::new();
        append_str(&mut request, "PUT\n");
        append_str(&mut request, "/");
        append_str(&mut request, sts.bucketname.as_str());
        append_str(&mut request, "/");
        append_str(&mut request, sts.file_path.as_str());
        append_str(&mut request, "\n\n");
        append_str(&mut request, "content-type:");
        append_str(&mut request, content_type);
        append_str(&mut request, "\nx-oss-content-sha256:UNSIGNED-PAYLOAD\nx-oss-date:");
        append_chars(&mut request, &date);
        append_str(&mut request, "\nx-oss-security-token:");
        append_str(&mut request, sts.security_token.as_str());
        append_str(&mut request, "\nx-oss-user-agent:");
        append_str(&mut request, "aliyun-sdk-js/6.23.0 Chrome 142.0.0.0 on OS X 10.15.7 64-bit");
        append_str(&mut request, "\n");
        append_str(&mut request, "\n\nUNSIGNED-PAYLOAD");
        let ghost req_spec = canonical_request(
            canonical_uri(sts.bucketname@, sts.file_path@),
            content_type@,
            oss_date@,
            sts.security_token@,
        );
        assert(request@ =~= req_spec);
        let request_text = string_of(&request);
        let request_hash = hex_encode(sha256(request_text.as_str().as_bytes()).as_slice());
        // scope and string to sign
        let mut scope_chars: Vec<char> = Vec::new();
        append_chars(&mut scope_chars, &day);
        append_str(&mut scope_chars, "/");
        append_chars(&mut scope_chars, &reg);
        append_str(&mut scope_chars, "/oss/aliyun_v4_request");
        assert(scope_chars@ =~= crate::upload::scope(day@, reg@));
        let mut sts_chars: Vec<char> = Vec::new();
        append_str(&mut sts_chars, "OSS4-HMAC-SHA256\n");
        append_chars(&mut sts_chars, &date);
        append_str(&mut sts_chars, "\n");
        append_chars(&mut sts_chars, &scope_chars);
        append_str(&mut sts_chars, "\n");
        append_chars(&mut sts_chars, &request_hash);
        assert(sts_chars@ =~= string_to_sign(oss_date@, day@, reg@, req_spec));
        // signing key
        let mut secret: Vec<char> = Vec::new();
        append_str(&mut secret, "aliyun_v4");
        append_str(&mut secret, sts.access_key_secret.as_str());
        let secret_text = string_of(&secret);
        let day_text = string_of(&day);
        let reg_text = string_of(&reg);
        let k_date = hmac_sha256(secret_text.as_str().as_bytes(), day_text.as_str().as_bytes());
        let k_region = hmac_sha256(k_date.as_slice(), reg_text.as_str().as_bytes());
        let k_service = hmac_sha256(k_region.as_slice(), "oss".as_bytes());
        let k_signing = hmac_sha256(k_service.as_slice(), "aliyun_v4_request".as_bytes());
        assert(k_signing@ == signing_key(sts.access_key_secret@, day@, reg@));
        let sts_text = string_of(&sts_chars);
        let signature = hex_encode(hmac_sha256(k_signing.as_slice(), sts_text.as_str().as_bytes()).as_slice());
        let mut auth: Vec<char> = Vec::new();
        append_str(&mut auth, "OSS4-HMAC-SHA256 Credential=");
        append_str(&mut auth, sts.access_key_id.as_str());
        append_str(&mut auth, "/");
        append_chars(&mut auth, &scope_chars);
        append_str(&mut auth, ",Signature=");
        append_chars(&mut auth, &signature);
        assert(auth@ =~= oss_authorization_of(
            sts.access_key_id@,
            sts.access_key_secret@,
            sts.security_token@,
            sts.bucketname@,
            sts.file_path@,
            sts.region@,
            content_type@,
            oss_date@,
        ));
        string_of(&auth)
    }
}

/// The upload signature is a function of the credentials, the object's place,
/// its content type and the time alone: equal inputs give the equal header.
pub proof fn upload_signature_deterministic(a: StsTokenData, b: StsTokenData, ct_a: Seq<char>, ct_b: Seq<char>, date_a: Seq<char>, date_b: Seq<char>)
    requires
        a.access_key_id@ == b.access_key_id@,
        a.access_key_secret@ == b.access_key_secret@,
        a.security_token@ == b.security_token@,
        a.bucketname@ == b.bucketname@,
        a.file_path@ == b.file_path@,
        a.region@ == b.region@,
        ct_a == ct_b,
        date_a == date_b,
    ensures
        oss_authorization_of(a.access_key_id@, a.access_key_secret@, a.security_token@, a.bucketname@, a.file_path@, a.region@, ct_a, date_a)
            == oss_authorization_of(b.access_key_id@, b.access_key_secret@, b.security_token@, b.bucketname@, b.file_path@, b.region@, ct_b, date_b),
{
}

} // verus!

verus! {

/// The kind, class, display type and content type of a file, by extension.
pub open spec fn file_table() -> Seq<(Seq<char>, Seq<char>, Seq<char>, Seq<char>, Seq<char>)> {
    seq![
        ("jpg"@, "image"@, "vision"@, "image"@, "image/jpeg"@),
        ("jpeg"@, "image"@, "vision"@, "image"@, "image/jpeg"@),
        ("png"@, "image"@, "vision"@, "image"@, "image/png"@),
        ("gif"@, "image"@, "vision"@, "image"@, "image/gif"@),
        ("webp"@, "image"@, "vision"@, "image"@, "image/webp"@),
        ("bmp"@, "image"@, "vision"@, "image"@, "image/bmp"@),
        ("mp4"@, "video"@, "video"@, "file"@, "video/mp4"@),
        ("avi"@, "video"@, "video"@, "file"@, "video/x-msvideo"@),
        ("mov"@, "video"@, "video"@, "file"@, "video/quicktime"@),
        ("mkv"@, "video"@, "video"@, "file"@, "video/x-matroska"@),
        ("mp3"@, "audio"@, "audio"@, "file"@, "audio/mpeg"@),
        ("wav"@, "audio"@, "audio"@, "file"@, "audio/wav"@),
        ("m4a"@, "audio"@, "audio"@, "file"@, "audio/mp4"@),
        ("flac"@, "audio"@, "audio"@, "file"@, "audio/flac"@),
        ("txt"@, "file"@, "document"@, "file"@, "text/plain"@),
        ("md"@, "file"@, "document"@, "file"@, "text/markdown"@),
        ("pdf"@, "file"@, "document"@, "file"@, "application/pdf"@),
        ("doc"@, "file"@, "document"@, "file"@, "application/msword"@),
        ("docx"@, "file"@, "document"@, "file"@, "application/vnd.openxmlformats-officedocument.wordprocessingml.document"@),
        ("csv"@, "file"@, "document"@, "file"@, "text/csv"@),
        ("xls"@, "file"@, "document"@, "file"@, "application/vnd.ms-excel"@),
        ("xlsx"@, "file"@, "document"@, "file"@, "application/vnd.openxmlformats-officedocument.spreadsheetml.sheet"@)
    ]
}

/// What an extension that is not in the table maps to: a generic document.
pub open spec fn default_file_info() -> (Seq<char>, Seq<char>, Seq<char>, Seq<char>) {
    ("file"@, "document"@, "file"@, "application/octet-stream"@)
}

/// The row for `ext` among the table's rows from `i` on (the first that matches).
pub open spec fn file_info_from(ext: Seq<char>, i: nat) -> (Seq<char>, Seq<char>, Seq<char>, Seq<char>)
    decreases file_table().len() - i,
{
    if i >= file_table().len() {
        default_file_info()
    } else if file_table()[i as int].0 == ext {
        let row = file_table()[i as int];
        (row.1, row.2, row.3, row.4)
    } else {
        file_info_from(ext, i + 1)
    }
}

/// `(file type, file class, show type, content type)` of a lowercase extension.
pub open spec fn file_info_of(ext: Seq<char>) -> (Seq<char>, Seq<char>, Seq<char>, Seq<char>) {
    file_info_from(ext, 0)
}

/// The green-net state that an upload starts in: videos are still checked.
pub open spec fn green_net_of(file_type: Seq<char>) -> Seq<char> {
    if file_type == "video"@ { "greening"@ } else { "success"@ }
}

impl FileUploader {
    /// The file type, class, show type and content type for a lowercase
    /// extension; a generic document for an unknown one.
    pub fn get_file_info(extension: &str) -> (r: (&'static str, &'static str, &'static str, &'static str))
        ensures
            (r.0@, r.1@, r.2@, r.3@) == file_info_of(extension@),
    {
        let mut table: Vec<(&'static str, &'static str, &'static str, &'static str, &'static str)> = Vec::new();
        table.push(("jpg", "image", "vision", "image", "image/jpeg"));
        table.push(("jpeg", "image", "vision", "image", "image/jpeg"));
        table.push(("png", "image", "vision", "image", "image/png"));
        table.push(("gif", "image", "vision", "image", "image/gif"));
        table.push(("webp", "image", "vision", "image", "image/webp"));
        table.push(("bmp", "image", "vision", "image", "image/bmp"));
        table.push(("mp4", "video", "video", "file", "video/mp4"));
        table.push(("avi", "video", "video", "file", "video/x-msvideo"));
        table.push(("mov", "video", "video", "file", "video/quicktime"));
        table.push(("mkv", "video", "video", "file", "video/x-matroska"));
        table.push(("mp3", "audio", "audio", "file", "audio/mpeg"));
        table.push(("wav", "audio", "audio", "file", "audio/wav"));
        table.push(("m4a", "audio", "audio", "file", "audio/mp4"));
        table.push(("flac", "audio", "audio", "file", "audio/flac"));
        table.push(("txt", "file", "document", "file", "text/plain"));
        table.push(("md", "file", "document", "file", "text/markdown"));
        table.push(("pdf", "file", "document", "file", "application/pdf"));
        table.push(("doc", "file", "document", "file", "application/msword"));
        table.push(("docx", "file", "document", "file", "application/vnd.openxmlformats-officedocument.wordprocessingml.document"));
        table.push(("csv", "file", "document", "file", "text/csv"));
        table.push(("xls", "file", "document", "file", "application/vnd.ms-excel"));
        table.push(("xlsx", "file", "document", "file", "application/vnd.openxmlformats-officedocument.spreadsheetml.sheet"));
        assert(table@.len() == file_table().len());
        assert(forall|i: int| 0 <= i < table@.len() ==> (#[trigger] table@[i]).0@ == file_table()[i].0
            && table@[i].1@ == file_table()[i].1 && table@[i].2@ == file_table()[i].2
            && table@[i].3@ == file_table()[i].3 && table@[i].4@ == file_table()[i].4);
        let mut i: usize = 0;
        while i < table.len()
            invariant
                i <= table.len() == file_table().len(),
                forall|j: int| 0 <= j < table@.len() ==> (#[trigger] table@[j]).0@ == file_table()[j].0
                    && table@[j].1@ == file_table()[j].1 && table@[j].2@ == file_table()[j].2
                    && table@[j].3@ == file_table()[j].3 && table@[j].4@ == file_table()[j].4,
                file_info_from(extension@, i as nat) == file_info_of(extension@),
            decreases table.len() - i,
        {
            if str_eq(table[i].0, extension) {
                return (table[i].1, table[i].2, table[i].3, table[i].4);
            }
            i += 1;
        }
        ("file", "document", "file", "application/octet-stream")
    }

    /// The green-net state that an upload of `file_type` starts in.
    pub fn green_net(file_type: &str) -> (r: &'static str)
        ensures
            r@ == green_net_of(file_type@),
    {
        if str_eq(file_type, "video") { "greening" } else { "success" }
    }
}

} // verus!
