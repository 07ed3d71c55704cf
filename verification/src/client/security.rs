//! The TLS material of the client: where it is read from, how a failed read
//! is reported, and whether a channel is secured with it. The files are read
//! outside the library, which hands over what each read gave.

use crate::client::messages::copy_bytes;
use vstd::prelude::*;
use vstd::string::StringExecFns;

verus! {

/// Where the CA certificate, the client certificate and its private key are.
/// An empty path means that there is none.
#[derive(Debug, PartialEq)]
pub struct SecurityConfig {
    pub ca_path: String,
    pub cert_path: String,
    pub key_path: String,
}

impl Clone for SecurityConfig {
    fn clone(&self) -> (c: Self)
        ensures
            c.ca_path@ == self.ca_path@,
            c.cert_path@ == self.cert_path@,
            c.key_path@ == self.key_path@,
    {
        SecurityConfig {
            ca_path: self.ca_path.clone(),
            cert_path: self.cert_path.clone(),
            key_path: self.key_path.clone(),
        }
    }
}

impl Default for SecurityConfig {
    /// No TLS material: every path is empty.
    fn default() -> (c: Self)
        ensures
            c.ca_path@ == Seq::<char>::empty(),
            c.cert_path@ == Seq::<char>::empty(),
            c.key_path@ == Seq::<char>::empty(),
    {
        SecurityConfig { ca_path: String::new(), cert_path: String::new(), key_path: String::new() }
    }
}

/// What reading a key file gave: the open failed, the read failed (each with
/// the text of the I/O error), or the file's bytes.
#[derive(Debug)]
pub enum KeyFileRead {
    OpenFailed(String),
    ReadFailed(String),
    Read(Vec<u8>),
}

/// The message for a key file that could not be opened.
pub open spec fn open_failed_message(tag: Seq<char>, path: Seq<char>, err: Seq<char>) -> Seq<
    char,
> {
    "failed to open "@ + path + " to load "@ + tag + ": "@ + err
}

/// The message for a key file that could not be read.
pub open spec fn read_failed_message(tag: Seq<char>, path: Seq<char>, err: Seq<char>) -> Seq<
    char,
> {
    "failed to load "@ + tag + " from path "@ + path + ": "@ + err
}

/// What loading the key `tag` from `path` gives, where reading the file gave
/// `read`: nothing to load for an empty path, else the file's bytes or the
/// error.
pub open spec fn loaded_key(tag: Seq<char>, path: Seq<char>, read: KeyFileRead) -> Result<
    Seq<u8>,
    Seq<char>,
> {
    if path.len() == 0 {
        Ok(Seq::empty())
    } else {
        match read {
            KeyFileRead::OpenFailed(e) => Err(open_failed_message(tag, path, e@)),
            KeyFileRead::ReadFailed(e) => Err(read_failed_message(tag, path, e@)),
            KeyFileRead::Read(bytes) => Ok(bytes@),
        }
    }
}

/// The view of a loaded key.
pub open spec fn key_result_view(r: Result<Vec<u8>, String>) -> Result<Seq<u8>, Seq<char>> {
    match r {
        Ok(k) => Ok(k@),
        Err(m) => Err(m@),
    }
}

/// Whether opening a key file went through, or the text of the I/O error.
#[derive(Debug)]
pub enum FileOpen {
    Opened,
    Failed(String),
}

/// Whether the key `tag` has a file at `path`: none for an empty path (then
/// nothing is opened, and `open` is not looked at); else the file, where
/// opening it (which gave `open`) went through, or the error.
pub fn check_key_file(tag: &str, path: &str, open: FileOpen) -> (r: Result<bool, String>)
    ensures
        path@.len() == 0 ==> r == Ok::<bool, String>(false),
        path@.len() > 0 ==> match open {
            FileOpen::Opened => r == Ok::<bool, String>(true),
            FileOpen::Failed(e) => r matches Err(m) && m@ == open_failed_message(tag@, path@, e@),
        },
{
    if path.is_empty() {
        return Ok(false);
    }
    match open {
        FileOpen::Opened => Ok(true),
        FileOpen::Failed(e) => {
            let mut m = String::from_str("failed to open ");
            m.append(path);
            m.append(" to load ");
            m.append(tag);
            m.append(": ");
            m.append(e.as_str());
            Err(m)
        },
    }
}

/// Loads the key `tag` from `path`, where reading the file gave `read`
/// (which is not looked at for an empty path: then nothing is read).
pub fn load_key(tag: &str, path: &str, read: KeyFileRead) -> (r: Result<Vec<u8>, String>)
    ensures
        key_result_view(r) == loaded_key(tag@, path@, read),
{
    let open = match &read {
        KeyFileRead::OpenFailed(e) => FileOpen::Failed(e.clone()),
        _ => FileOpen::Opened,
    };
    match check_key_file(tag, path, open) {
        Err(m) => Err(m),
        Ok(false) => Ok(Vec::new()),
        Ok(true) => match read {
            KeyFileRead::ReadFailed(e) => {
                let mut m = String::from_str("failed to load ");
                m.append(tag);
                m.append(" from path ");
                m.append(path);
                m.append(": ");
                m.append(e.as_str());
                Err(m)
            },
            KeyFileRead::Read(bytes) => Ok(bytes),
            KeyFileRead::OpenFailed(_) => Ok(Vec::new()),
        },
    }
}

/// `std::hint::black_box` of std on a buffer: the compiler must treat the
/// buffer as read there, so the stores made to it before are not removed as
/// dead. std documents this as a hint, not a promise; nothing is claimed of
/// the call.
#[verifier::external_body]
fn keep_stores(bytes: &Vec<u8>) {
    std::hint::black_box(bytes);
}

/// How a channel is built: in the clear, or with TLS and this material.
#[derive(Debug)]
pub enum ChannelSecurity {
    Insecure,
    Secure { root_cert: Vec<u8>, cert: Vec<u8>, private_key: Vec<u8> },
}

/// The loaded TLS material. Its holder calls `clear_key` before letting it
/// go: a `Drop` impl is verified only where it opens no invariant, and the
/// `Vec` operations that zeroing needs do not say so.
#[derive(Default)]
pub struct SecurityManager {
    ca: Vec<u8>,
    cert: Vec<u8>,
    key: Vec<u8>,
}

/// The TLS material as mathematical values.
pub struct SecurityManagerView {
    pub ca: Seq<u8>,
    pub cert: Seq<u8>,
    pub key: Seq<u8>,
}

impl View for SecurityManager {
    type V = SecurityManagerView;

    closed spec fn view(&self) -> SecurityManagerView {
        SecurityManagerView { ca: self.ca@, cert: self.cert@, key: self.key@ }
    }
}

/// The paths of the three keys, in the order in which they are loaded.
pub open spec fn key_paths(cfg: SecurityConfig) -> Seq<Seq<char>> {
    seq![cfg.ca_path@, cfg.cert_path@, cfg.key_path@]
}

/// The names of the three keys, in the order in which they are loaded.
pub open spec fn key_tags() -> Seq<Seq<char>> {
    seq!["CA"@, "certificate"@, "private key"@]
}

/// The first key from the `i`th on that has a file to read, or 3 where
/// none has.
pub open spec fn next_key_file(paths: Seq<Seq<char>>, i: int) -> int
    decreases 3 - i,
{
    if i >= 3 {
        3
    } else if paths[i].len() > 0 {
        i
    } else {
        next_key_file(paths, i + 1)
    }
}

/// The next key with a file to read comes no earlier than `i`, and no
/// later than the last key.
pub proof fn lemma_next_key_file_bounds(paths: Seq<Seq<char>>, i: int)
    requires
        0 <= i <= 3,
    ensures
        i <= next_key_file(paths, i) <= 3,
    decreases 3 - i,
{
    if i < 3 {
        lemma_next_key_file_bounds(paths, i + 1);
    }
}

/// The keys loaded so far, completed with empty keys up to the next key
/// that has a file to read.
pub open spec fn skip_empty(paths: Seq<Seq<char>>, keys: Seq<Seq<u8>>) -> Seq<Seq<u8>> {
    keys + Seq::new((next_key_file(paths, keys.len() as int) - keys.len()) as nat, |i: int| Seq::<u8>::empty())
}

/// The keys that the loader keeps once `keys` are loaded: none once all
/// three are, for they go into the material and are not copied.
pub open spec fn kept_keys(paths: Seq<Seq<char>>, keys: Seq<Seq<u8>>) -> Seq<Seq<u8>> {
    let ks = skip_empty(paths, keys);
    if ks.len() >= 3 {
        Seq::empty()
    } else {
        ks
    }
}

/// A step of loading the material, as a mathematical value.
pub enum KeyLoadStepView {
    ReadFile(Seq<char>),
    Failed(Seq<char>),
    Loaded(SecurityManagerView),
}

/// Where loading stands once `keys` are loaded: the material where all three
/// are, else the file of the next key to read.
pub open spec fn step_from(paths: Seq<Seq<char>>, keys: Seq<Seq<u8>>) -> KeyLoadStepView {
    let ks = skip_empty(paths, keys);
    if ks.len() >= 3 {
        KeyLoadStepView::Loaded(SecurityManagerView { ca: ks[0], cert: ks[1], key: ks[2] })
    } else {
        KeyLoadStepView::ReadFile(paths[ks.len() as int])
    }
}

/// One step of loading, from `keys` loaded so far, where reading the file
/// asked for last gave `read`: the keys loaded after it, and the step.
/// A failed read ends the loading with its error; no later file is read.
pub open spec fn load_step(
    paths: Seq<Seq<char>>,
    keys: Seq<Seq<u8>>,
    read: Option<KeyFileRead>,
) -> (Seq<Seq<u8>>, KeyLoadStepView) {
    if read is Some && keys.len() < 3 {
        match loaded_key(key_tags()[keys.len() as int], paths[keys.len() as int], read->0) {
            Err(m) => (keys, KeyLoadStepView::Failed(m)),
            Ok(k) => (kept_keys(paths, keys.push(k)), step_from(paths, keys.push(k))),
        }
    } else {
        (kept_keys(paths, keys), step_from(paths, keys))
    }
}

/// The material that loading ends with is made of the keys loaded, in
/// order: the CA is the first key loaded, the certificate the second, the
/// private key the third; a key not loaded from a file is empty, and its
/// path is empty.
pub proof fn law_material_is_the_loaded_keys(paths: Seq<Seq<char>>, keys: Seq<Seq<u8>>)
    requires
        paths.len() == 3,
        keys.len() <= 3,
        step_from(paths, keys) is Loaded,
    ensures
        ({
            let m = step_from(paths, keys)->Loaded_0;
            &&& keys.len() > 0 ==> m.ca == keys[0]
            &&& keys.len() > 1 ==> m.cert == keys[1]
            &&& keys.len() > 2 ==> m.key == keys[2]
            &&& keys.len() <= 0 ==> m.ca.len() == 0 && paths[0].len() == 0
            &&& keys.len() <= 1 ==> m.cert.len() == 0 && paths[1].len() == 0
            &&& keys.len() <= 2 ==> m.key.len() == 0 && paths[2].len() == 0
        }),
{
    reveal_with_fuel(next_key_file, 4);
    let ks = skip_empty(paths, keys);
    lemma_next_key_file_bounds(paths, keys.len() as int);
    assert(ks.len() >= 3);
    assert(next_key_file(paths, keys.len() as int) == 3);
    assert forall|i: int| keys.len() <= i < 3 implies paths[i].len() == 0 by {
        lemma_skipped_paths_empty(paths, keys.len() as int, i);
    }
}

/// Every key that loading passes over on the way to the next file has an
/// empty path.
pub proof fn lemma_skipped_paths_empty(paths: Seq<Seq<char>>, i: int, j: int)
    requires
        0 <= i <= j < next_key_file(paths, i),
    ensures
        paths[j].len() == 0,
    decreases 3 - i,
{
    if i < 3 && paths[i].len() == 0 && i < j {
        lemma_skipped_paths_empty(paths, i + 1, j);
    }
}

/// A key read from its file goes into the material unchanged: where the
/// step that takes the read ends the loading, the key at that place in the
/// material is the bytes read.
pub proof fn law_read_key_goes_into_material(
    paths: Seq<Seq<char>>,
    keys: Seq<Seq<u8>>,
    bytes: Vec<u8>,
)
    requires
        paths.len() == 3,
        keys.len() < 3,
        paths[keys.len() as int].len() > 0,
        load_step(paths, keys, Some(KeyFileRead::Read(bytes))).1 is Loaded,
    ensures
        ({
            let m = load_step(paths, keys, Some(KeyFileRead::Read(bytes))).1->Loaded_0;
            &&& keys.len() == 0 ==> m.ca == bytes@
            &&& keys.len() == 1 ==> m.cert == bytes@
            &&& keys.len() == 2 ==> m.key == bytes@
        }),
{
    law_material_is_the_loaded_keys(paths, keys.push(bytes@));
}

/// What to do next while loading the material.
pub enum KeyLoadStep {
    /// Read the file at this path, and hand over what the read gave.
    ReadFile(String),
    /// A key could not be loaded.
    Failed(String),
    /// All three keys are loaded.
    Loaded(SecurityManager),
}

impl KeyLoadStep {
    /// The step as a mathematical value.
    pub open spec fn view_step(&self) -> KeyLoadStepView {
        match self {
            KeyLoadStep::ReadFile(p) => KeyLoadStepView::ReadFile(p@),
            KeyLoadStep::Failed(m) => KeyLoadStepView::Failed(m@),
            KeyLoadStep::Loaded(sm) => KeyLoadStepView::Loaded(sm@),
        }
    }
}

/// Loading the material that a configuration names: the keys loaded so
/// far, in the order CA, certificate, private key. Once all three are
/// loaded they move into the material; the loader keeps no copy.
pub struct KeyLoader {
    cfg: SecurityConfig,
    keys: Vec<Vec<u8>>,
}

impl KeyLoader {
    /// The paths of the keys to load.
    pub closed spec fn paths(&self) -> Seq<Seq<char>> {
        key_paths(self.cfg)
    }

    /// The keys loaded so far.
    pub closed spec fn loaded(&self) -> Seq<Seq<u8>> {
        self.keys@.map_values(|k: Vec<u8>| k@)
    }

    /// At most three keys are loaded.
    pub closed spec fn wf(&self) -> bool {
        self.keys@.len() <= 3
    }

    /// The start of loading what `cfg` names: no key loaded yet.
    pub fn new(cfg: &SecurityConfig) -> (l: Self)
        ensures
            l.wf(),
            l.paths() == key_paths(*cfg),
            l.loaded() == Seq::<Seq<u8>>::empty(),
    {
        let l = KeyLoader { cfg: cfg.clone(), keys: Vec::new() };
        assert(l.loaded() =~= Seq::<Seq<u8>>::empty());
        l
    }

    /// The path of the `i`th key.
    fn path_of(&self, i: usize) -> (p: &str)
        requires
            i < 3,
        ensures
            p@ == self.paths()[i as int],
    {
        if i == 0 {
            self.cfg.ca_path.as_str()
        } else if i == 1 {
            self.cfg.cert_path.as_str()
        } else {
            self.cfg.key_path.as_str()
        }
    }
}

/// The name of the `i`th key.
fn tag_of(i: usize) -> (t: &'static str)
    requires
        i < 3,
    ensures
        t@ == key_tags()[i as int],
{
    if i == 0 {
        "CA"
    } else if i == 1 {
        "certificate"
    } else {
        "private key"
    }
}

impl SecurityManager {
    /// One step of loading the material that the loader's configuration
    /// names, one key after the other (CA, certificate, private key): `read`
    /// is what reading the file that the previous step asked for gave. A key
    /// with an empty path is empty and no file is read for it; the first key
    /// that fails ends the loading with its error. The keys move into the
    /// material that ends the loading, so the private key exists once.
    pub fn new(loader: &mut KeyLoader, read: Option<KeyFileRead>) -> (s: KeyLoadStep)
        requires
            old(loader).wf(),
        ensures
            final(loader).wf(),
            final(loader).paths() == old(loader).paths(),
            (final(loader).loaded(), s.view_step()) == load_step(
                old(loader).paths(),
                old(loader).loaded(),
                read,
            ),
    {
        let ghost paths = loader.paths();
        if let Some(r) = read {
            if loader.keys.len() < 3 {
                let i = loader.keys.len();
                match load_key(tag_of(i), loader.path_of(i), r) {
                    Ok(k) => {
                        loader.keys.push(k);
                        assert(loader.loaded() =~= old(loader).loaded().push(k@));
                    },
                    Err(m) => {
                        return KeyLoadStep::Failed(m);
                    },
                }
            }
        }
        let ghost start = loader.loaded();
        proof {
            lemma_next_key_file_bounds(paths, start.len() as int);
            assert(loader.loaded() =~= skip_empty(paths, start).subrange(0, loader.keys@.len() as int));
        }
        while loader.keys.len() < 3 && loader.path_of(loader.keys.len()).is_empty()
            invariant
                loader.wf(),
                loader.paths() == paths,
                start.len() <= loader.keys@.len(),
                loader.keys@.len() <= next_key_file(paths, start.len() as int),
                loader.loaded() == skip_empty(paths, start).subrange(0, loader.keys@.len() as int),
                next_key_file(paths, start.len() as int) == next_key_file(paths, loader.keys@.len() as int),
            decreases 3 - loader.keys@.len(),
        {
            proof {
                lemma_next_key_file_bounds(paths, loader.keys@.len() + 1int);
            }
            loader.keys.push(Vec::new());
            assert(loader.loaded() =~= skip_empty(paths, start).subrange(0, loader.keys@.len() as int));
        }
        proof {
            lemma_next_key_file_bounds(paths, loader.keys@.len() as int);
        }
        assert(loader.loaded() =~= skip_empty(paths, start));
        if loader.keys.len() == 3 {
            let ghost ks = loader.loaded();
            let key = loader.keys.pop().unwrap();
            let cert = loader.keys.pop().unwrap();
            let ca = loader.keys.pop().unwrap();
            assert(loader.loaded() =~= Seq::<Seq<u8>>::empty());
            let sm = SecurityManager { ca, cert, key };
            assert(sm@.ca == ks[0] && sm@.cert == ks[1] && sm@.key == ks[2]);
            KeyLoadStep::Loaded(sm)
        } else {
            let i = loader.keys.len();
            KeyLoadStep::ReadFile(String::from_str(loader.path_of(i)))
        }
    }

    /// How to build a channel: in the clear where there is no CA
    /// certificate, else with TLS and the loaded material.
    pub fn connect(&self) -> (s: ChannelSecurity)
        ensures
            self@.ca.len() == 0 ==> s is Insecure,
            self@.ca.len() > 0 ==> (s matches ChannelSecurity::Secure { root_cert, cert, private_key }
                && root_cert@ == self@.ca && cert@ == self@.cert && private_key@ == self@.key),
    {
        if self.ca.len() == 0 {
            ChannelSecurity::Insecure
        } else {
            ChannelSecurity::Secure {
                root_cert: copy_bytes(&self.ca),
                cert: copy_bytes(&self.cert),
                private_key: copy_bytes(&self.key),
            }
        }
    }

    /// Overwrites the private key with zeros, keeping its length.
    pub fn clear_key(&mut self)
        ensures
            final(self)@.key.len() == old(self)@.key.len(),
            forall|i: int| 0 <= i < final(self)@.key.len() ==> #[trigger] final(self)@.key[i] == 0,
            final(self)@.ca == old(self)@.ca,
            final(self)@.cert == old(self)@.cert,
    {
        let mut i: usize = 0;
        while i < self.key.len()
            invariant
                i <= self.key@.len(),
                self.key@.len() == old(self)@.key.len(),
                forall|j: int| 0 <= j < i ==> #[trigger] self.key@[j] == 0,
                self.ca@ == old(self)@.ca,
                self.cert@ == old(self)@.cert,
            decreases self.key@.len() - i,
        {
            self.key[i] = 0;
            i = i + 1;
        }
        keep_stores(&self.key);
    }
}

} // verus!
