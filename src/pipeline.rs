use vstd::prelude::*;
use vstd::string::*;

verus! {

/// What a pipeline record holds, as mathematical values.
pub struct PipelineModel {
    pub name: Seq<char>,
    pub dockerfile_location: Seq<char>,
    pub docker_image_tag: Seq<char>,
    pub docker_image_flags: Seq<Seq<char>>,
    pub push_repository: Seq<char>,
    pub kubernetes_yaml_location: Seq<char>,
}

/// One named pipeline: where its Dockerfile is, how the image is tagged and
/// built, where it is pushed and which manifest deploys it.
#[derive(Debug)]
pub struct PipelineConfig {
    pub name: String,
    pub dockerfile_location: String,
    pub docker_image_tag: String,
    pub docker_image_flags: Vec<String>,
    pub push_repository: String,
    pub kubernetes_yaml_location: String,
}

/// The characters of each string of a sequence.
pub open spec fn strings(v: Seq<String>) -> Seq<Seq<char>> {
    v.map_values(|s: String| s@)
}

impl View for PipelineConfig {
    type V = PipelineModel;

    open spec fn view(&self) -> PipelineModel {
        PipelineModel {
            name: self.name@,
            dockerfile_location: self.dockerfile_location@,
            docker_image_tag: self.docker_image_tag@,
            docker_image_flags: strings(self.docker_image_flags@),
            push_repository: self.push_repository@,
            kubernetes_yaml_location: self.kubernetes_yaml_location@,
        }
    }
}

/// An answer with its enclosing single quotes removed, if it has a pair of
/// them (a path pasted from a shell often does).
pub open spec fn unquoted(s: Seq<char>) -> Seq<char> {
    if s.len() >= 2 && s[0] == '\'' && s[s.len() - 1] == '\'' {
        s.subrange(1, s.len() - 1)
    } else {
        s
    }
}

/// The whitespace-separated words of a string, in order.
pub uninterp spec fn whitespace_tokens(s: Seq<char>) -> Seq<Seq<char>>;

/// Relies on str::split_whitespace: the words of `s` between runs of
/// whitespace, in order, each copied into a `String`.
#[verifier::external_body]
fn split_whitespace(s: &str) -> (r: Vec<String>)
    ensures
        strings(r@) == whitespace_tokens(s@),
{
    s.split_whitespace().map(|t| t.to_string()).collect()
}

/// Copies a vector of strings.
pub fn copy_strings(v: &Vec<String>) -> (r: Vec<String>)
    ensures
        strings(r@) == strings(v@),
{
    let mut r: Vec<String> = Vec::new();
    let mut i: usize = 0;
    while i < v.len()
        invariant
            i <= v.len(),
            r@.len() == i,
            forall|j: int| 0 <= j < i ==> #[trigger] r@[j]@ == v@[j]@,
        decreases v.len() - i,
    {
        r.push(v[i].clone());
        i = i + 1;
    }
    assert(strings(r@) =~= strings(v@));
    r
}

/// Removes one pair of enclosing single quotes from an answer.
pub fn strip_quotes(s: &str) -> (r: String)
    ensures
        r@ == unquoted(s@),
{
    let n = s.unicode_len();
    if n >= 2 && s.get_char(0) == '\'' && s.get_char(n - 1) == '\'' {
        String::from_str(s.substring_char(1, n - 1))
    } else {
        String::from_str(s)
    }
}

impl PipelineConfig {
    /// Builds a record from the answers of the setup prompts: the two paths
    /// lose enclosing single quotes, and the build flags are split into words.
    pub fn from_answers(
        name: &str,
        dockerfile_location: &str,
        docker_image_tag: &str,
        flags: &str,
        push_repository: &str,
        kubernetes_yaml_location: &str,
    ) -> (r: PipelineConfig)
        ensures
            r@ == (PipelineModel {
                name: name@,
                dockerfile_location: unquoted(dockerfile_location@),
                docker_image_tag: docker_image_tag@,
                docker_image_flags: whitespace_tokens(flags@),
                push_repository: push_repository@,
                kubernetes_yaml_location: unquoted(kubernetes_yaml_location@),
            }),
    {
        PipelineConfig {
            name: String::from_str(name),
            dockerfile_location: strip_quotes(dockerfile_location),
            docker_image_tag: String::from_str(docker_image_tag),
            docker_image_flags: split_whitespace(flags),
            push_repository: String::from_str(push_repository),
            kubernetes_yaml_location: strip_quotes(kubernetes_yaml_location),
        }
    }

    /// A copy of this record.
    pub fn duplicate(&self) -> (r: PipelineConfig)
        ensures
            r@ == self@,
    {
        PipelineConfig {
            name: self.name.clone(),
            dockerfile_location: self.dockerfile_location.clone(),
            docker_image_tag: self.docker_image_tag.clone(),
            docker_image_flags: copy_strings(&self.docker_image_flags),
            push_repository: self.push_repository.clone(),
            kubernetes_yaml_location: self.kubernetes_yaml_location.clone(),
        }
    }
}

} // verus!
