//! Images: which services use which image, and how an image usage is shown.
use vstd::prelude::*;
use crate::env::{value_matches, value_matches_spec, TextQuery};
use crate::text::{decimal, decimal_string, lex_le, str_equal, str_less_eq};

verus! {

/// The image subject of the command line tool.
pub struct ImageSubject {}

impl ImageSubject {
    /// The name under which the subject is addressed.
    pub fn subject(&self) -> (s: &'static str)
        ensures
            s@ == "image"@,
    {
        "image"
    }

    /// Short help text of the subject.
    pub fn subject_command_about(&self) -> (s: String)
        ensures
            s@ == "Show image usage."@,
    {
        String::from_str("Show image usage.")
    }

    /// Long help text of the subject.
    pub fn subject_command_long_about(&self) -> (s: String)
        ensures
            s@ == "Show which DSH components use an image."@,
    {
        String::from_str("Show which DSH components use an image.")
    }

    /// Short alias of the subject.
    pub fn subject_command_alias(&self) -> (s: Option<&'static str>)
        ensures
            s is Some && s->0@ == "i"@,
    {
        Some("i")
    }
}

/// An image string taken apart: an image from the registry, an image from
/// the app catalog, or a string that is neither.
#[derive(Debug, PartialEq)]
pub enum ParsedImage {
    Registry { tenant: String, id: String, version: String },
    App { stage: String, supplier: String, tenant: String, id: String, version: String },
    Unrecognized { image: String },
}

/// The view of a parsed image string.
pub enum ParsedImageView {
    Registry { tenant: Seq<char>, id: Seq<char>, version: Seq<char> },
    App { stage: Seq<char>, supplier: Seq<char>, tenant: Seq<char>, id: Seq<char>, version: Seq<char> },
    Unrecognized { image: Seq<char> },
}

impl View for ParsedImage {
    type V = ParsedImageView;

    open spec fn view(&self) -> ParsedImageView {
        match self {
            ParsedImage::Registry { tenant, id, version } => ParsedImageView::Registry { tenant: tenant@, id: id@, version: version@ },
            ParsedImage::App { stage, supplier, tenant, id, version } =>
                ParsedImageView::App { stage: stage@, supplier: supplier@, tenant: tenant@, id: id@, version: version@ },
            ParsedImage::Unrecognized { image } => ParsedImageView::Unrecognized { image: image@ },
        }
    }
}

/// What `dsh_api::parse::ImageString::from` makes of an image string.
pub uninterp spec fn image_string_parts(image: Seq<char>) -> ParsedImageView;

/// Calls `dsh_api::parse::ImageString::from`, which matches the image string
/// against the patterns of app catalog and registry images. The result is
/// named by `image_string_parts`; of the patterns nothing is stated, but
/// that a string that matches neither is kept as it is.
#[verifier::external_body]
fn parse_image_string(image: &str) -> (p: ParsedImage)
    ensures
        p@ == image_string_parts(image@),
        match p@ {
            ParsedImageView::Unrecognized { image: kept } => kept == image@,
            _ => true,
        },
{
    match dsh_api::parse::ImageString::from(image) {
        dsh_api::parse::ImageString::Registry { image } => ParsedImage::Registry { tenant: image.tenant, id: image.id, version: image.version },
        dsh_api::parse::ImageString::App { image } => ParsedImage::App {
            stage: image.stage,
            supplier: image.supplier,
            tenant: image.tenant,
            id: image.id,
            version: image.version,
        },
        dsh_api::parse::ImageString::Unrecognized { image } => ParsedImage::Unrecognized { image },
    }
}

/// The identifier of an image: the image name, or the whole string when it
/// was not recognized.
pub open spec fn image_id(p: ParsedImageView) -> Seq<char> {
    match p {
        ParsedImageView::Registry { id, .. } => id,
        ParsedImageView::App { id, .. } => id,
        ParsedImageView::Unrecognized { image } => image,
    }
}

/// Where an image comes from.
pub open spec fn image_source(p: ParsedImageView) -> Seq<char> {
    match p {
        ParsedImageView::Registry { .. } => "harbor"@,
        ParsedImageView::App { .. } => "app-catalog"@,
        ParsedImageView::Unrecognized { .. } => ""@,
    }
}

/// The tenant of an image, empty when it was not recognized.
pub open spec fn image_tenant(p: ParsedImageView) -> Seq<char> {
    match p {
        ParsedImageView::Registry { tenant, .. } => tenant,
        ParsedImageView::App { tenant, .. } => tenant,
        ParsedImageView::Unrecognized { .. } => Seq::empty(),
    }
}

/// The version of an image, empty when it was not recognized.
pub open spec fn image_version(p: ParsedImageView) -> Seq<char> {
    match p {
        ParsedImageView::Registry { version, .. } => version,
        ParsedImageView::App { version, .. } => version,
        ParsedImageView::Unrecognized { .. } => Seq::empty(),
    }
}

impl ParsedImage {
    /// The identifier of the image.
    pub fn id(&self) -> (s: String)
        ensures
            s@ == image_id(self@),
    {
        match self {
            ParsedImage::Registry { id, .. } => id.clone(),
            ParsedImage::App { id, .. } => id.clone(),
            ParsedImage::Unrecognized { image } => image.clone(),
        }
    }

    /// Where the image comes from.
    pub fn source(&self) -> (s: &'static str)
        ensures
            s@ == image_source(self@),
    {
        match self {
            ParsedImage::Registry { .. } => "harbor",
            ParsedImage::App { .. } => "app-catalog",
            ParsedImage::Unrecognized { .. } => "",
        }
    }

    /// The tenant of the image.
    pub fn tenant(&self) -> (s: String)
        ensures
            s@ == image_tenant(self@),
    {
        match self {
            ParsedImage::Registry { tenant, .. } => tenant.clone(),
            ParsedImage::App { tenant, .. } => tenant.clone(),
            ParsedImage::Unrecognized { .. } => String::new(),
        }
    }

    /// The version of the image.
    pub fn version(&self) -> (s: String)
        ensures
            s@ == image_version(self@),
    {
        match self {
            ParsedImage::Registry { version, .. } => version.clone(),
            ParsedImage::App { version, .. } => version.clone(),
            ParsedImage::Unrecognized { .. } => String::new(),
        }
    }
}

/// Labels under which image usages are shown.
#[derive(Debug, PartialEq, Eq, Structural, Clone, Copy)]
pub enum ImageUsageLabel {
    Id,
    Instances,
    Service,
    Source,
    Stage,
    Supplier,
    Tenant,
    Version,
}

impl ImageUsageLabel {
    /// The text of the label.
    pub open spec fn text(self) -> Seq<char> {
        match self {
            ImageUsageLabel::Id => "image id"@,
            ImageUsageLabel::Instances => "#"@,
            ImageUsageLabel::Service => "service id"@,
            ImageUsageLabel::Source => "source"@,
            ImageUsageLabel::Stage => "stage"@,
            ImageUsageLabel::Supplier => "supplier"@,
            ImageUsageLabel::Tenant => "tenant"@,
            ImageUsageLabel::Version => "version"@,
        }
    }

    /// The text of the label.
    pub fn as_str(&self) -> (s: &'static str)
        ensures
            s@ == self.text(),
    {
        match self {
            ImageUsageLabel::Id => "image id",
            ImageUsageLabel::Instances => "#",
            ImageUsageLabel::Service => "service id",
            ImageUsageLabel::Source => "source",
            ImageUsageLabel::Stage => "stage",
            ImageUsageLabel::Supplier => "supplier",
            ImageUsageLabel::Tenant => "tenant",
            ImageUsageLabel::Version => "version",
        }
    }

    /// Whether the label shows the target.
    pub fn is_target_label(&self) -> (b: bool)
        ensures
            b <==> *self == ImageUsageLabel::Id,
    {
        match self {
            ImageUsageLabel::Id => true,
            _ => false,
        }
    }
}

/// A service that uses an image, with its number of instances.
#[derive(Debug, PartialEq)]
pub struct ImageUsage {
    pub image: ParsedImage,
    pub service_id: String,
    pub instances: u64,
}

impl View for ImageUsage {
    type V = (ParsedImageView, Seq<char>, u64);

    open spec fn view(&self) -> (ParsedImageView, Seq<char>, u64) {
        (self.image@, self.service_id@, self.instances)
    }
}

impl ImageUsage {
    /// The usage of `image` by service `service_id` with `instances` instances.
    pub fn new(image: ParsedImage, service_id: String, instances: u64) -> (u: Self)
        ensures
            u.image == image,
            u.service_id == service_id,
            u.instances == instances,
    {
        ImageUsage { image, service_id, instances }
    }

    /// What is shown under `label` for this usage, listed under image `target_id`.
    pub fn value(&self, label: ImageUsageLabel, target_id: &str) -> (s: String)
        ensures
            s@ == image_usage_text(self@, label, target_id@),
    {
        match label {
            ImageUsageLabel::Id => String::from_str(target_id),
            ImageUsageLabel::Instances => decimal_string(self.instances),
            ImageUsageLabel::Service => self.service_id.clone(),
            ImageUsageLabel::Source => String::from_str(self.image.source()),
            ImageUsageLabel::Stage => match &self.image {
                ParsedImage::App { stage, .. } => stage.clone(),
                _ => String::new(),
            },
            ImageUsageLabel::Supplier => match &self.image {
                ParsedImage::App { supplier, .. } => supplier.clone(),
                _ => String::new(),
            },
            ImageUsageLabel::Tenant => self.image.tenant(),
            ImageUsageLabel::Version => self.image.version(),
        }
    }
}

/// What is shown under `label` for a usage listed under image `target_id`.
pub open spec fn image_usage_text(u: (ParsedImageView, Seq<char>, u64), label: ImageUsageLabel, target_id: Seq<char>) -> Seq<char> {
    match label {
        ImageUsageLabel::Id => target_id,
        ImageUsageLabel::Instances => decimal(u.2 as nat),
        ImageUsageLabel::Service => u.1,
        ImageUsageLabel::Source => image_source(u.0),
        ImageUsageLabel::Stage => match u.0 {
            ParsedImageView::App { stage, .. } => stage,
            _ => Seq::empty(),
        },
        ImageUsageLabel::Supplier => match u.0 {
            ParsedImageView::App { supplier, .. } => supplier,
            _ => Seq::empty(),
        },
        ImageUsageLabel::Tenant => image_tenant(u.0),
        ImageUsageLabel::Version => image_version(u.0),
    }
}

/// A service, its number of instances and the image string it runs.
pub struct ServiceImage {
    pub service_id: String,
    pub instances: u64,
    pub image: String,
}

impl View for ServiceImage {
    type V = (Seq<char>, u64, Seq<char>);

    open spec fn view(&self) -> (Seq<char>, u64, Seq<char>) {
        (self.service_id@, self.instances, self.image@)
    }
}

/// The views of services and their images.
pub open spec fn service_image_views(v: Seq<ServiceImage>) -> Seq<(Seq<char>, u64, Seq<char>)> {
    v.map_values(|s: ServiceImage| s@)
}

/// The views of image usages.
pub open spec fn usage_views(v: Seq<ImageUsage>) -> Seq<(ParsedImageView, Seq<char>, u64)> {
    v.map_values(|u: ImageUsage| u@)
}

/// Whether the image of a service is listed: the service is started and
/// started services are asked for, or it is stopped, stopped services are
/// asked for and it names an image.
pub open spec fn image_listed(instances: u64, image: Seq<char>, include_started: bool, include_stopped: bool) -> bool {
    (instances > 0 && include_started) || (instances == 0 && include_stopped && image.len() > 0)
}

/// The image usages of the listed services, in the order of the services.
pub open spec fn listed_image_usages(
    services: Seq<(Seq<char>, u64, Seq<char>)>,
    include_started: bool,
    include_stopped: bool,
) -> Seq<(ParsedImageView, Seq<char>, u64)>
    decreases services.len(),
{
    if services.len() == 0 {
        Seq::empty()
    } else {
        let before = listed_image_usages(services.drop_last(), include_started, include_stopped);
        let s = services.last();
        if image_listed(s.1, s.2, include_started, include_stopped) {
            before.push((image_string_parts(s.2), s.0, s.1))
        } else {
            before
        }
    }
}

/// The image usages of the services that are started or stopped as asked.
pub fn image_usages(services: &Vec<ServiceImage>, include_started: bool, include_stopped: bool) -> (usages: Vec<ImageUsage>)
    ensures
        usage_views(usages@) == listed_image_usages(service_image_views(services@), include_started, include_stopped),
{
    let mut usages: Vec<ImageUsage> = Vec::new();
    let mut i: usize = 0;
    assert(service_image_views(services@).take(0) =~= Seq::<(Seq<char>, u64, Seq<char>)>::empty());
    assert(usage_views(usages@) =~= Seq::<(ParsedImageView, Seq<char>, u64)>::empty());
    while i < services.len()
        invariant
            i <= services.len(),
            usage_views(usages@) == listed_image_usages(service_image_views(services@).take(i as int), include_started, include_stopped),
        decreases services.len() - i,
    {
        let s = &services[i];
        assert(service_image_views(services@).take(i + 1).drop_last() =~= service_image_views(services@).take(i as int));
        assert(service_image_views(services@).take(i + 1).last() == s@);
        if (s.instances > 0 && include_started) || (s.instances == 0 && include_stopped && s.image.unicode_len() > 0) {
            let ghost before = usage_views(usages@);
            let image = parse_image_string(s.image.as_str());
            usages.push(ImageUsage::new(image, s.service_id.clone(), s.instances));
            assert(usage_views(usages@) =~= before.push((image_string_parts(s.image@), s.service_id@, s.instances)));
        }
        i = i + 1;
    }
    assert(service_image_views(services@).take(services.len() as int) =~= service_image_views(services@));
    usages
}

/// Order of rows by image identifier, then by service identifier.
pub open spec fn row_le(a: (Seq<char>, Seq<char>), b: (Seq<char>, Seq<char>)) -> bool {
    (lex_le(a.0, b.0) && a.0 != b.0) || (a.0 == b.0 && lex_le(a.1, b.1))
}

proof fn lemma_row_total(a: (Seq<char>, Seq<char>), b: (Seq<char>, Seq<char>))
    ensures
        row_le(a, b) || row_le(b, a),
{
    crate::text::lemma_lex_total(a.0, b.0);
    crate::text::lemma_lex_total(a.1, b.1);
}

proof fn lemma_row_transitive(a: (Seq<char>, Seq<char>), b: (Seq<char>, Seq<char>), c: (Seq<char>, Seq<char>))
    requires
        row_le(a, b),
        row_le(b, c),
    ensures
        row_le(a, c),
{
    if a.0 == b.0 && b.0 == c.0 {
        crate::text::lemma_lex_transitive(a.1, b.1, c.1);
    } else if a.0 != b.0 && b.0 != c.0 {
        crate::text::lemma_lex_transitive(a.0, b.0, c.0);
        if a.0 == c.0 {
            crate::text::lemma_lex_antisymmetric(b.0, c.0);
        }
    }
}

/// The key by which a row is ordered: its image and service identifiers.
pub open spec fn row_key(r: (Seq<char>, (ParsedImageView, Seq<char>, u64))) -> (Seq<char>, Seq<char>) {
    (r.0, r.1.1)
}

/// Whether rows are ordered by image identifier, then by service identifier.
pub open spec fn rows_sorted(rows: Seq<(Seq<char>, (ParsedImageView, Seq<char>, u64))>) -> bool {
    forall|i: int, j: int| 0 <= i < j < rows.len() ==> row_le(row_key(#[trigger] rows[i]), row_key(#[trigger] rows[j]))
}

/// The views of rows of image identifiers and usages.
pub open spec fn row_views(rows: Seq<(String, ImageUsage)>) -> Seq<(Seq<char>, (ParsedImageView, Seq<char>, u64))> {
    rows.map_values(|r: (String, ImageUsage)| (r.0@, r.1@))
}

/// Each usage under the identifier of its image.
pub open spec fn keyed(usages: Seq<(ParsedImageView, Seq<char>, u64)>) -> Seq<(Seq<char>, (ParsedImageView, Seq<char>, u64))> {
    usages.map_values(|u: (ParsedImageView, Seq<char>, u64)| (image_id(u.0), u))
}

/// Inserts a row after the rows that do not come after it.
fn insert_row(rows: &mut Vec<(String, ImageUsage)>, id: String, usage: ImageUsage)
    requires
        rows_sorted(row_views(old(rows)@)),
    ensures
        rows_sorted(row_views(final(rows)@)),
        row_views(final(rows)@).to_multiset() == row_views(old(rows)@).to_multiset().insert((id@, usage@)),
{
    broadcast use vstd::seq_lib::group_to_multiset_ensures;
    let ghost before = row_views(rows@);
    let ghost new_row = (id@, usage@);
    let mut p: usize = 0;
    while p < rows.len()
        invariant
            p <= rows.len(),
            before == row_views(rows@),
            new_row == (id@, usage@),
            forall|i: int| 0 <= i < p ==> row_le(row_key(#[trigger] before[i]), row_key(new_row)),
        ensures
            p <= rows.len(),
            before == row_views(rows@),
            forall|i: int| 0 <= i < p ==> row_le(row_key(#[trigger] before[i]), row_key(new_row)),
            p < rows.len() ==> !row_le(row_key(before[p as int]), row_key(new_row)),
        decreases rows.len() - p,
    {
        assert(before[p as int] == (rows@[p as int].0@, rows@[p as int].1@));
        let le = if str_equal(rows[p].0.as_str(), id.as_str()) {
            str_less_eq(rows[p].1.service_id.as_str(), usage.service_id.as_str())
        } else {
            str_less_eq(rows[p].0.as_str(), id.as_str())
        };
        if !le {
            break;
        }
        p = p + 1;
    }
    rows.insert(p, (id, usage));
    let ghost after = row_views(rows@);
    assert(after =~= before.insert(p as int, new_row));
    assert forall|a: int, b: int| 0 <= a < b < after.len() implies row_le(row_key(#[trigger] after[a]), row_key(#[trigger] after[b])) by {
        if a == p {
            assert(after[b] == before[b - 1]);
            lemma_row_total(row_key(before[p as int]), row_key(new_row));
            if b - 1 > p {
                lemma_row_transitive(row_key(new_row), row_key(before[p as int]), row_key(before[b - 1]));
            }
        } else if b == p {
            assert(after[a] == before[a]);
        } else {
            let oa = if a < p { a } else { a - 1 };
            let ob = if b < p { b } else { b - 1 };
            assert(after[a] == before[oa] && after[b] == before[ob]);
        }
    }
}

/// The rows of image usages, each under the identifier of its image, ordered
/// by image identifier and then by service identifier.
pub fn image_rows(usages: Vec<ImageUsage>) -> (rows: Vec<(String, ImageUsage)>)
    ensures
        rows_sorted(row_views(rows@)),
        row_views(rows@).to_multiset() == keyed(usage_views(usages@)).to_multiset(),
{
    broadcast use vstd::seq_lib::group_to_multiset_ensures;
    let ghost all = keyed(usage_views(usages@));
    let mut rest = usages;
    let mut rows: Vec<(String, ImageUsage)> = Vec::new();
    assert(row_views(rows@) =~= Seq::<(Seq<char>, (ParsedImageView, Seq<char>, u64))>::empty());
    while rest.len() > 0
        invariant
            rows_sorted(row_views(rows@)),
            row_views(rows@).to_multiset().add(keyed(usage_views(rest@)).to_multiset()) == all.to_multiset(),
        decreases rest.len(),
    {
        let ghost before_rest = keyed(usage_views(rest@));
        let usage = rest.pop().unwrap();
        let ghost after_rest = keyed(usage_views(rest@));
        assert(before_rest =~= after_rest.push((image_id(usage@.0), usage@)));
        proof {
            vstd::seq_lib::to_multiset_build(after_rest, (image_id(usage@.0), usage@));
        }
        let id = usage.image.id();
        insert_row(&mut rows, id, usage);
    }
    assert(keyed(usage_views(rest@)) =~= Seq::<(Seq<char>, (ParsedImageView, Seq<char>, u64))>::empty());
    rows
}

/// The images that the services which are started or stopped as asked use,
/// one row per service, ordered by image identifier and then by service
/// identifier.
pub fn list_images(services: &Vec<ServiceImage>, include_started: bool, include_stopped: bool) -> (rows: Vec<(String, ImageUsage)>)
    ensures
        rows_sorted(row_views(rows@)),
        row_views(rows@).to_multiset()
            == keyed(listed_image_usages(service_image_views(services@), include_started, include_stopped)).to_multiset(),
{
    let usages = image_usages(services, include_started, include_stopped);
    image_rows(usages)
}

/// The view of a listed row: the image identifier and the usage.
pub type ImageRowView = (Seq<char>, (ParsedImageView, Seq<char>, u64));

/// The rows whose image identifier matches the query, in order.
pub open spec fn matching_rows(rows: Seq<(Seq<char>, (ParsedImageView, Seq<char>, u64))>, query: TextQuery) -> Seq<(Seq<char>, (ParsedImageView, Seq<char>, u64))>
    decreases rows.len(),
{
    if rows.len() == 0 {
        Seq::empty()
    } else {
        let rest = matching_rows(rows.drop_last(), query);
        if value_matches_spec(query, rows.last().0) {
            rest.push(rows.last())
        } else {
            rest
        }
    }
}

/// Keeps the rows whose image identifier matches the query: the identifier
/// itself, or one in which the regular expression matches somewhere.
pub fn rows_matching(rows: Vec<(String, ImageUsage)>, query: &TextQuery) -> (kept: Vec<(String, ImageUsage)>)
    ensures
        row_views(kept@) == matching_rows(row_views(rows@), *query),
{
    let ghost all = row_views(rows@);
    let mut rest = rows;
    let mut kept: Vec<(String, ImageUsage)> = Vec::new();
    let ghost mut done: int = 0;
    assert(all.take(0) =~= Seq::<(Seq<char>, (ParsedImageView, Seq<char>, u64))>::empty());
    assert(row_views(rest@) =~= all.skip(0));
    while rest.len() > 0
        invariant
            0 <= done <= all.len(),
            row_views(rest@) == all.skip(done),
            row_views(kept@) == matching_rows(all.take(done), *query),
        decreases rest.len(),
    {
        let ghost before_rest = row_views(rest@);
        let row = rest.remove(0);
        assert(before_rest[0] == (row.0@, row.1@));
        assert(row_views(rest@) =~= before_rest.subrange(1, before_rest.len() as int));
        assert(all.take(done + 1).drop_last() =~= all.take(done));
        assert(all.take(done + 1).last() == all[done]);
        assert(all[done] == before_rest[0]);
        let is_match = value_matches(query, row.0.as_str());
        if is_match {
            let ghost before = row_views(kept@);
            kept.push(row);
            assert(row_views(kept@) =~= before.push(all[done]));
        }
        proof {
            done = done + 1;
        }
        assert(row_views(rest@) =~= all.skip(done));
    }
    assert(all.take(done) =~= all);
    kept
}

/// The images that the services which are started or stopped as asked use,
/// one row per service, ordered by image identifier and then by service
/// identifier, of the images whose identifier matches the query.
pub fn find_images(services: &Vec<ServiceImage>, query: &TextQuery, include_started: bool, include_stopped: bool) -> (rows: Vec<(String, ImageUsage)>)
    ensures
        exists|all: Seq<ImageRowView>|
            rows_sorted(all)
            && all.to_multiset() == keyed(listed_image_usages(service_image_views(services@), include_started, include_stopped)).to_multiset()
            && row_views(rows@) == #[trigger] matching_rows(all, *query),
{
    let all = list_images(services, include_started, include_stopped);
    let ghost all_views = row_views(all@);
    let kept = rows_matching(all, query);
    assert(row_views(kept@) == matching_rows(all_views, *query));
    kept
}

/// A recognized image shows the tenant, identifier and version parsed from
/// its image string, and its source; an unrecognized one shows the whole
/// string as identifier and nothing else.
pub proof fn lemma_image_parts(tenant: Seq<char>, id: Seq<char>, version: Seq<char>, stage: Seq<char>, supplier: Seq<char>, image: Seq<char>)
    ensures
        image_id(ParsedImageView::Registry { tenant, id, version }) == id,
        image_tenant(ParsedImageView::Registry { tenant, id, version }) == tenant,
        image_version(ParsedImageView::Registry { tenant, id, version }) == version,
        image_source(ParsedImageView::Registry { tenant, id, version }) == "harbor"@,
        image_id(ParsedImageView::App { stage, supplier, tenant, id, version }) == id,
        image_tenant(ParsedImageView::App { stage, supplier, tenant, id, version }) == tenant,
        image_version(ParsedImageView::App { stage, supplier, tenant, id, version }) == version,
        image_source(ParsedImageView::App { stage, supplier, tenant, id, version }) == "app-catalog"@,
        image_id(ParsedImageView::Unrecognized { image }) == image,
        image_tenant(ParsedImageView::Unrecognized { image }).len() == 0,
        image_version(ParsedImageView::Unrecognized { image }).len() == 0,
        image_source(ParsedImageView::Unrecognized { image }).len() == 0,
{
    reveal_strlit("");
}

/// What a usage shows under each label: the target under the identifier,
/// its count of instances, its service, and the source, tenant and version
/// of its image; the stage and supplier of an app catalog image, and
/// nothing for those of another image.
pub proof fn lemma_image_usage_text(image: ParsedImageView, service_id: Seq<char>, instances: u64, target_id: Seq<char>)
    ensures
        image_usage_text((image, service_id, instances), ImageUsageLabel::Id, target_id) == target_id,
        image_usage_text((image, service_id, instances), ImageUsageLabel::Instances, target_id) == decimal(instances as nat),
        image_usage_text((image, service_id, instances), ImageUsageLabel::Service, target_id) == service_id,
        image_usage_text((image, service_id, instances), ImageUsageLabel::Source, target_id) == image_source(image),
        image_usage_text((image, service_id, instances), ImageUsageLabel::Tenant, target_id) == image_tenant(image),
        image_usage_text((image, service_id, instances), ImageUsageLabel::Version, target_id) == image_version(image),
        (image matches ParsedImageView::App { stage, supplier, .. }
            && image_usage_text((image, service_id, instances), ImageUsageLabel::Stage, target_id) == stage
            && image_usage_text((image, service_id, instances), ImageUsageLabel::Supplier, target_id) == supplier)
            || (!(image is App)
                && image_usage_text((image, service_id, instances), ImageUsageLabel::Stage, target_id).len() == 0
                && image_usage_text((image, service_id, instances), ImageUsageLabel::Supplier, target_id).len() == 0),
{
}

/// The services listed for images are exactly the services started or
/// stopped as asked, each with its image taken apart: a service is listed
/// when it runs instances and started services are asked for, or when it
/// runs none, stopped services are asked for and it names an image.
pub proof fn lemma_listed_image_usages(services: Seq<(Seq<char>, u64, Seq<char>)>, include_started: bool, include_stopped: bool)
    ensures
        listed_image_usages(services, include_started, include_stopped).len() <= services.len(),
        include_started && include_stopped && (forall|i: int| 0 <= i < services.len() ==> (#[trigger] services[i]).1 > 0 || services[i].2.len() > 0)
            ==> listed_image_usages(services, include_started, include_stopped)
                == services.map_values(|s: (Seq<char>, u64, Seq<char>)| (image_string_parts(s.2), s.0, s.1)),
        !include_started && !include_stopped ==> listed_image_usages(services, include_started, include_stopped).len() == 0,
    decreases services.len(),
{
    if services.len() > 0 {
        let front = services.drop_last();
        lemma_listed_image_usages(front, include_started, include_stopped);
        if include_started && include_stopped && (forall|i: int| 0 <= i < services.len() ==> (#[trigger] services[i]).1 > 0 || services[i].2.len() > 0) {
            assert forall|i: int| 0 <= i < front.len() implies (#[trigger] front[i]).1 > 0 || front[i].2.len() > 0 by {
                assert(front[i] == services[i]);
            }
            assert(services.last() == services[services.len() - 1]);
            assert(services.map_values(|s: (Seq<char>, u64, Seq<char>)| (image_string_parts(s.2), s.0, s.1))
                =~= front.map_values(|s: (Seq<char>, u64, Seq<char>)| (image_string_parts(s.2), s.0, s.1))
                    .push((image_string_parts(services.last().2), services.last().0, services.last().1)));
        }
    }
}

} // verus!
