//! The application table and the loader.
//!
//! Applications are images that lie one after another in a read-only source
//! region. The table holds the address where each image starts and, last,
//! the address where the final image ends. One application runs at a time,
//! in table order: each is copied into the execution window, which every
//! application shares, and started there.

use crate::trap::context::TrapContext;
use vstd::prelude::*;

verus! {

/// Size in bytes of the stack that applications run on.
pub const USER_STACK_SIZE: usize = 4096 * 2;

/// Size in bytes of the stack that trap handling runs on.
pub const KERNEL_STACK_SIZE: usize = 4096 * 2;

/// Largest number of applications that a table may hold.
pub const MAX_APP_NUM: usize = 16;

/// Number of boundary addresses in a table that holds `MAX_APP_NUM` applications.
pub const MAX_BOUNDS: usize = MAX_APP_NUM + 1;

/// Address of the execution window, where every application starts.
pub const APP_BASE_ADDRESS: usize = 0x80400000;

/// Size in bytes of the execution window; no image may be larger.
pub const APP_SIZE_LIMIT: usize = 0x20000;

/// Whether `[start, end)` can be the image of an application: the addresses
/// are in order and the image fits into the execution window.
pub open spec fn valid_image(start: usize, end: usize) -> bool {
    start <= end && end - start <= APP_SIZE_LIMIT
}

/// The execution window after `image` was loaded: the image at its start,
/// zero bytes from there to its end.
pub open spec fn loaded_window(image: Seq<u8>) -> Seq<u8> {
    Seq::new(
        APP_SIZE_LIMIT as nat,
        |i: int|
            if i < image.len() {
                image[i]
            } else {
                0u8
            },
    )
}

/// What an application manager is, mathematically.
pub struct ManagerView {
    /// Number of applications in the table.
    pub num_app: nat,
    /// Index of the application that is launched next.
    pub current_app: nat,
    /// The boundaries: application `i` lies in `[bounds[i], bounds[i + 1])`.
    pub bounds: Seq<usize>,
}

impl ManagerView {
    /// The table holds at most `MAX_APP_NUM` applications, one boundary more
    /// than applications, and every image is valid.
    pub open spec fn valid(self) -> bool {
        &&& self.num_app <= MAX_APP_NUM
        &&& self.bounds.len() == self.num_app + 1
        &&& forall|i: int|
            0 <= i < self.num_app ==> valid_image(#[trigger] self.bounds[i], self.bounds[i + 1])
    }

    /// Length in bytes of the source region, from the start of the first
    /// image to the end of the last.
    pub open spec fn source_len(self) -> int {
        self.bounds[self.num_app as int] - self.bounds[0]
    }

    /// The bytes of application `i` in the source region `source`, whose
    /// first byte lies at address `bounds[0]`.
    pub open spec fn image(self, source: Seq<u8>, i: int) -> Seq<u8> {
        source.subrange(self.bounds[i] - self.bounds[0], self.bounds[i + 1] - self.bounds[0])
    }

    /// Whether every application has been launched.
    pub open spec fn exhausted(self) -> bool {
        self.current_app >= self.num_app
    }

    /// The manager after one more application has been accounted for.
    pub open spec fn advanced(self) -> ManagerView {
        ManagerView { current_app: self.current_app + 1, ..self }
    }
}

/// Why a table blob was refused.
#[derive(Clone, Copy, Debug, PartialEq, Eq)]
pub enum TableError {
    /// The blob ends before the count, or before the last boundary.
    Truncated,
    /// The count is larger than `MAX_APP_NUM`.
    TooManyApps,
    /// Application `index` ends before it starts.
    Unordered { index: usize },
    /// Application `index` is larger than the execution window.
    ImageTooLarge { index: usize },
}

/// Whether the blob holds a count of at most `MAX_APP_NUM` and all the
/// boundaries that this count calls for.
pub open spec fn blob_header_ok(blob: Seq<usize>) -> bool {
    &&& blob.len() > 0
    &&& blob[0] <= MAX_APP_NUM
    &&& blob.len() >= blob[0] + 2
}

/// The boundaries in a blob: the `count + 1` words that follow the count.
pub open spec fn blob_bounds(blob: Seq<usize>) -> Seq<usize> {
    blob.subrange(1, blob[0] + 2)
}

/// The manager that a blob describes, before any application has run.
pub open spec fn blob_view(blob: Seq<usize>) -> ManagerView {
    ManagerView { num_app: blob[0] as nat, current_app: 0, bounds: blob_bounds(blob) }
}

/// Whether the blob is a table that an application manager can be made of.
pub open spec fn blob_valid(blob: Seq<usize>) -> bool {
    blob_header_ok(blob) && blob_view(blob).valid()
}

/// Whether application `index` is the first in `bounds` whose image is not valid.
pub open spec fn first_invalid_image(bounds: Seq<usize>, index: int) -> bool {
    &&& 0 <= index < bounds.len() - 1
    &&& !valid_image(bounds[index], bounds[index + 1])
    &&& forall|j: int| 0 <= j < index ==> valid_image(#[trigger] bounds[j], bounds[j + 1])
}

/// Whether `error` is what is wrong with the blob. The count is judged
/// first, then the length, then the images in table order.
pub open spec fn blob_error(blob: Seq<usize>, error: TableError) -> bool {
    match error {
        TableError::Truncated => blob.len() == 0 || (blob[0] <= MAX_APP_NUM && blob.len() < blob[0]
            + 2),
        TableError::TooManyApps => blob.len() > 0 && blob[0] > MAX_APP_NUM,
        TableError::Unordered { index } => {
            &&& blob_header_ok(blob)
            &&& first_invalid_image(blob_bounds(blob), index as int)
            &&& blob_bounds(blob)[index as int] > blob_bounds(blob)[index + 1]
        },
        TableError::ImageTooLarge { index } => {
            &&& blob_header_ok(blob)
            &&& first_invalid_image(blob_bounds(blob), index as int)
            &&& blob_bounds(blob)[index as int] <= blob_bounds(blob)[index + 1]
        },
    }
}

/// What follows when the loader is asked for the next application.
#[derive(Clone, Copy, Debug, PartialEq, Eq)]
pub enum Launch {
    /// Application `app_id` is in the execution window: enter it with `context`.
    Run { app_id: usize, context: TrapContext },
    /// No application is left: power off.
    Shutdown,
}

/// What launching the next application does. While an application is left,
/// it is loaded into the window, the manager moves on by one, and the result
/// carries the state in which the application starts: at the base of the
/// window, on the user stack, unprivileged. When none is left, nothing
/// changes and the result is `Shutdown`.
pub open spec fn launch_spec(
    before: ManagerView,
    source: Seq<u8>,
    window_before: Seq<u8>,
    user_sp: usize,
    sstatus: usize,
    launch: Launch,
    after: ManagerView,
    window_after: Seq<u8>,
) -> bool {
    if before.exhausted() {
        &&& launch is Shutdown
        &&& after == before
        &&& window_after == window_before
    } else {
        &&& launch matches Launch::Run { app_id, context }
        &&& app_id == before.current_app
        &&& context.is_initial(APP_BASE_ADDRESS, user_sp, sstatus)
        &&& after == before.advanced()
        &&& window_after == loaded_window(before.image(source, before.current_app as int))
    }
}

/// In a valid table the boundaries never decrease.
pub proof fn lemma_bounds_ordered(view: ManagerView, i: int, j: int)
    requires
        view.valid(),
        0 <= i <= j <= view.num_app,
    ensures
        view.bounds[i] <= view.bounds[j],
    decreases j - i,
{
    if i < j {
        lemma_bounds_ordered(view, i, j - 1);
    }
}

/// At most one error is what is wrong with a blob, and none is with a blob
/// that is valid.
pub proof fn lemma_blob_error_unique(blob: Seq<usize>, first: TableError, second: TableError)
    requires
        blob_error(blob, first),
    ensures
        !blob_valid(blob),
        blob_error(blob, second) ==> first == second,
{
    let bounds = blob_bounds(blob);
    match first {
        TableError::Unordered { index } | TableError::ImageTooLarge { index } => {
            assert(!valid_image(bounds[index as int], bounds[index + 1]));
            assert(blob_view(blob).bounds[index as int] == bounds[index as int]);
        },
        _ => {},
    }
    if blob_error(blob, second) {
        match (first, second) {
            (
                TableError::Unordered { index: i } | TableError::ImageTooLarge { index: i },
                TableError::Unordered { index: j } | TableError::ImageTooLarge { index: j },
            ) => {
                if i < j {
                    assert(valid_image(bounds[i as int], bounds[i + 1]));
                }
                if j < i {
                    assert(valid_image(bounds[j as int], bounds[j + 1]));
                }
            },
            _ => {},
        }
    }
}

/// Launching never changes the table and never moves the index of the next
/// application back: it moves it on by exactly one where an application is
/// started, and leaves it where none is left.
pub proof fn lemma_launch_moves_forward(
    before: ManagerView,
    source: Seq<u8>,
    window_before: Seq<u8>,
    user_sp: usize,
    sstatus: usize,
    launch: Launch,
    after: ManagerView,
    window_after: Seq<u8>,
)
    requires
        launch_spec(before, source, window_before, user_sp, sstatus, launch, after, window_after),
    ensures
        after.num_app == before.num_app,
        after.bounds == before.bounds,
        after.current_app >= before.current_app,
        launch is Run <==> before.current_app < before.num_app,
        launch is Run ==> after.current_app == before.current_app + 1,
        launch is Shutdown ==> after.current_app == before.current_app,
{
}

/// Applications start in table order, none twice and none left out: the
/// launch that follows the start of application `i` starts application
/// `i + 1`, or ends in shutdown when `i` was the last.
pub proof fn lemma_launch_order(
    before: ManagerView,
    source: Seq<u8>,
    window_before: Seq<u8>,
    user_sp: usize,
    sstatus: usize,
    first: Launch,
    between: ManagerView,
    window_between: Seq<u8>,
    second: Launch,
    after: ManagerView,
    window_after: Seq<u8>,
)
    requires
        launch_spec(before, source, window_before, user_sp, sstatus, first, between, window_between),
        launch_spec(between, source, window_between, user_sp, sstatus, second, after, window_after),
    ensures
        first matches Launch::Run { app_id: i, .. } ==> match second {
            Launch::Run { app_id: j, .. } => j == i + 1,
            Launch::Shutdown => i + 1 == before.num_app,
        },
        first is Shutdown ==> second is Shutdown && after == before && window_after
            == window_before,
{
}

/// The application table together with the index of the application that is
/// launched next.
pub struct AppManager {
    num_app: usize,
    current_app: usize,
    app_start: [usize; MAX_BOUNDS],
}

impl View for AppManager {
    type V = ManagerView;

    closed spec fn view(&self) -> ManagerView {
        ManagerView {
            num_app: self.num_app as nat,
            current_app: self.current_app as nat,
            bounds: self.app_start@.take(self.num_app + 1),
        }
    }
}

impl AppManager {
    /// What holds of every application manager: its table is valid.
    #[verifier::type_invariant]
    pub closed spec fn wf(&self) -> bool {
        &&& self.num_app <= MAX_APP_NUM
        &&& forall|i: int|
            0 <= i < self.num_app ==> valid_image(
                #[trigger] self.app_start@[i],
                self.app_start@[i + 1],
            )
    }

    /// Reads a table blob: the number of applications, then one boundary
    /// address more than that. Words after the last boundary are ignored.
    /// The manager starts at application 0.
    pub fn from_blob(blob: &[usize]) -> (result: Result<AppManager, TableError>)
        ensures
            match result {
                Ok(manager) => blob_valid(blob@) && manager@ == blob_view(blob@),
                Err(error) => !blob_valid(blob@) && blob_error(blob@, error),
            },
    {
        if blob.len() == 0 {
            return Err(TableError::Truncated);
        }
        let num_app = blob[0];
        if num_app > MAX_APP_NUM {
            return Err(TableError::TooManyApps);
        }
        if blob.len() < num_app + 2 {
            return Err(TableError::Truncated);
        }
        let ghost bounds = blob_bounds(blob@);
        let mut app_start: [usize; MAX_BOUNDS] = [0; MAX_BOUNDS];
        app_start[0] = blob[1];
        let mut i: usize = 0;
        while i < num_app
            invariant
                i <= num_app <= MAX_APP_NUM,
                num_app == blob@[0],
                blob@.len() >= num_app + 2,
                bounds == blob_bounds(blob@),
                forall|j: int| 0 <= j <= i ==> app_start@[j] == #[trigger] bounds[j],
                forall|j: int| 0 <= j < i ==> valid_image(#[trigger] bounds[j], bounds[j + 1]),
            decreases num_app - i,
        {
            let start = blob[i + 1];
            let end = blob[i + 2];
            assert(start == bounds[i as int] && end == bounds[i + 1]);
            if start > end {
                return Err(TableError::Unordered { index: i });
            }
            if end - start > APP_SIZE_LIMIT {
                return Err(TableError::ImageTooLarge { index: i });
            }
            app_start[i + 1] = end;
            i += 1;
        }
        assert forall|k: int| 0 <= k < num_app implies valid_image(
            #[trigger] app_start@[k],
            app_start@[k + 1],
        ) by {
            assert(app_start@[k] == bounds[k] && app_start@[k + 1] == bounds[k + 1]);
        }
        let manager = AppManager { num_app, current_app: 0, app_start };
        assert(manager@.bounds =~= bounds);
        Ok(manager)
    }

    /// The number of applications in the table.
    pub fn get_num_app(&self) -> (n: usize)
        ensures
            n == self@.num_app,
    {
        self.num_app
    }

    /// The index of the application that is launched next.
    pub fn get_current_app(&self) -> (index: usize)
        ensures
            index == self@.current_app,
    {
        self.current_app
    }

    /// The addresses at which application `app_id` starts and ends in the
    /// source region, if the table holds such an application.
    pub fn app_bounds(&self, app_id: usize) -> (range: Option<(usize, usize)>)
        ensures
            range == if app_id < self@.num_app {
                Some((self@.bounds[app_id as int], self@.bounds[app_id + 1]))
            } else {
                None
            },
    {
        proof {
            use_type_invariant(self);
        }
        if app_id < self.num_app {
            Some((self.app_start[app_id], self.app_start[app_id + 1]))
        } else {
            None
        }
    }

    /// Length in bytes of the source region that holds the images.
    pub fn source_len(&self) -> (len: usize)
        ensures
            len == self@.source_len(),
    {
        proof {
            use_type_invariant(self);
            self.lemma_view_valid();
            lemma_bounds_ordered(self@, 0, self.num_app as int);
        }
        self.app_start[self.num_app] - self.app_start[0]
    }

    /// Copies application `app_id` from the source region into the execution
    /// window and fills the rest of the window with zero bytes, so that
    /// nothing of an earlier application stays behind. Where the table holds
    /// no such application, the window is left as it is and the result is
    /// `false`.
    pub fn load_app(&self, app_id: usize, source: &[u8], window: &mut [u8]) -> (loaded: bool)
        requires
            source@.len() == self@.source_len(),
            old(window)@.len() == APP_SIZE_LIMIT,
        ensures
            loaded == (app_id < self@.num_app),
            loaded ==> final(window)@ == loaded_window(self@.image(source@, app_id as int)),
            !loaded ==> final(window)@ == old(window)@,
    {
        proof {
            use_type_invariant(self);
            self.lemma_view_valid();
        }
        if app_id >= self.num_app {
            return false;
        }
        proof {
            lemma_bounds_ordered(self@, 0, app_id as int);
            lemma_bounds_ordered(self@, app_id + 1, self.num_app as int);
        }
        let mut i: usize = 0;
        while i < APP_SIZE_LIMIT
            invariant
                i <= APP_SIZE_LIMIT,
                window@.len() == APP_SIZE_LIMIT,
                forall|k: int| 0 <= k < i ==> window@[k] == 0u8,
            decreases APP_SIZE_LIMIT - i,
        {
            window[i] = 0;
            i += 1;
        }
        let offset = self.app_start[app_id] - self.app_start[0];
        let len = self.app_start[app_id + 1] - self.app_start[app_id];
        let ghost image = self@.image(source@, app_id as int);
        let source_len = source.len();
        assert(image.len() == len);
        let mut j: usize = 0;
        while j < len
            invariant
                j <= len <= APP_SIZE_LIMIT,
                offset + len <= source_len == source@.len(),
                window@.len() == APP_SIZE_LIMIT,
                image == source@.subrange(offset as int, offset + len),
                forall|k: int| 0 <= k < j ==> window@[k] == image[k],
                forall|k: int| j <= k < APP_SIZE_LIMIT ==> window@[k] == 0u8,
            decreases len - j,
        {
            window[j] = source[offset + j];
            j += 1;
        }
        assert(window@ =~= loaded_window(image));
        true
    }

    /// The view of a well-formed manager is valid.
    pub proof fn lemma_view_valid(&self)
        requires
            self.wf(),
        ensures
            self@.valid(),
    {
    }

    /// Moves on to the next application. The index is not held against the
    /// number of applications: the loader does that.
    pub fn move_to_next_app(&mut self)
        requires
            old(self)@.current_app < usize::MAX,
        ensures
            final(self)@ == old(self)@.advanced(),
            final(self)@.current_app == old(self)@.current_app + 1,
    {
        proof {
            use_type_invariant(&*self);
        }
        self.current_app += 1;
    }
}

/// Launches the next application: loads the current one into the execution
/// window, builds the state in which it starts and moves the manager on to
/// the one after it. `user_sp` is the top of the user stack and `sstatus` the
/// current status word. The caller enters the application through the
/// returned state, or powers off when there is none.
pub fn run_next_app(
    manager: &mut AppManager,
    source: &[u8],
    window: &mut [u8],
    user_sp: usize,
    sstatus: usize,
) -> (launch: Launch)
    requires
        source@.len() == old(manager)@.source_len(),
        old(window)@.len() == APP_SIZE_LIMIT,
    ensures
        launch_spec(
            old(manager)@,
            source@,
            old(window)@,
            user_sp,
            sstatus,
            launch,
            final(manager)@,
            final(window)@,
        ),
{
    let current_app = manager.get_current_app();
    if !manager.load_app(current_app, source, window) {
        return Launch::Shutdown;
    }
    manager.move_to_next_app();
    Launch::Run {
        app_id: current_app,
        context: TrapContext::app_init_context(APP_BASE_ADDRESS, user_sp, sstatus),
    }
}

} // verus!
