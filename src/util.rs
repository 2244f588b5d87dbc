use vstd::prelude::*;

verus! {

/// First second that `humantime` can no longer print (year 10000).
pub const RFC3339_SECONDS_END: u64 = 253_402_300_800;

/// The RFC 3339 text, to the second and in UTC, that `humantime` prints for
/// this many seconds after the Unix epoch.
pub uninterp spec fn rfc3339_seconds(secs: u64) -> Seq<char>;

/// Relies on `humantime::format_rfc3339_seconds`: the text is determined by
/// the time, in the fixed 20-character shape `2018-02-14T00:28:07Z`; its
/// `Display` fails from year 10000 on, which `requires` leaves out.
#[verifier::external_body]
fn format_rfc3339_seconds(secs: u64) -> (r: String)
    requires
        secs < RFC3339_SECONDS_END,
    ensures
        r@ == rfc3339_seconds(secs),
        r@.len() == 20,
{
    humantime::format_rfc3339_seconds(std::time::UNIX_EPOCH + std::time::Duration::from_secs(secs))
        .to_string()
}

/// Relies on `std::time::SystemTime::now`: whole seconds since the Unix epoch
/// on the system clock, 0 for a clock set before it. Nothing is known of the
/// value.
#[verifier::external_body]
fn now_secs() -> (r: u64) {
    std::time::SystemTime::now().duration_since(std::time::UNIX_EPOCH).map(|d| d.as_secs()).unwrap_or(
        0,
    )
}

/// `"![filename](url)"`: a Markdown image link.
pub fn format_markdown_url(url: &str, filename: &str) -> (r: String)
    ensures
        r@ == "!["@ + filename@ + "]("@ + url@ + ")"@,
{
    let mut s = String::from_str("![");
    s.append(filename);
    s.append("](");
    s.append(url);
    s.append(")");
    s
}

/// `<img alt="filename" src="url" />`: an HTML image element.
pub fn format_html_url(url: &str, filename: &str) -> (r: String)
    ensures
        r@ == "<img alt=\""@ + filename@ + "\" src=\""@ + url@ + "\" />"@,
{
    let mut s = String::from_str("<img alt=\"");
    s.append(filename);
    s.append("\" src=\"");
    s.append(url);
    s.append("\" />");
    s
}

/// The default file name for an image taken at `secs`: its RFC 3339 time to
/// the second, then `.png`.
pub fn image_name_at(secs: u64) -> (r: String)
    requires
        secs < RFC3339_SECONDS_END,
    ensures
        r@ == rfc3339_seconds(secs) + ".png"@,
{
    let mut s = format_rfc3339_seconds(secs);
    s.append(".png");
    s
}

/// The default file name for an image taken now; `None` where the clock is
/// past what RFC 3339 can write.
pub fn image_name() -> (r: Option<String>)
    ensures
        r is Some ==> exists|secs: u64|
            secs < RFC3339_SECONDS_END && r->0@ == #[trigger] rfc3339_seconds(secs) + ".png"@,
{
    let secs = now_secs();
    if secs < RFC3339_SECONDS_END {
        Some(image_name_at(secs))
    } else {
        None
    }
}

/// The name under which a local file is uploaded: the one given, else the
/// file's stem with `.png`, else `fallback`.
pub fn upload_file_name(file_name: Option<String>, file_stem: Option<String>, fallback: String) -> (r:
    String)
    ensures
        file_name is Some ==> r@ == file_name->0@,
        file_name is None && file_stem is Some ==> r@ == file_stem->0@ + ".png"@,
        file_name is None && file_stem is None ==> r@ == fallback@,
{
    match file_name {
        Some(n) => n,
        None => match file_stem {
            Some(stem) => stem.concat(".png"),
            None => fallback,
        },
    }
}

} // verus!
