use vstd::prelude::*;

verus! {

/// Outcome of one read from the ring buffer.
#[derive(Debug, Clone, Copy, PartialEq, Eq, Structural)]
pub enum ReadResult {
    /// The requested samples were copied out and the read cursor advanced.
    Success,
    /// The data at the read cursor was already overwritten: the cursor was
    /// moved to half a buffer behind the write cursor and silence was output.
    Overrun,
    /// Not enough data has been produced yet: silence was output and the read
    /// cursor left where it was.
    Underrun,
}

/// Abstract state of a ring buffer.
///
/// Positions are absolute counts of interleaved samples since creation;
/// `history` is every sample ever written, so `history.len() == write_pos`.
/// Only the last `capacity` samples of it are still held by the buffer.
pub struct RingModel<T> {
    pub capacity: nat,
    pub write_pos: nat,
    pub read_pos: nat,
    pub active: bool,
    pub silence: T,
    pub history: Seq<T>,
}

/// `n` samples of silence.
pub open spec fn silence_of<T>(silence: T, n: nat) -> Seq<T> {
    Seq::new(n, |_i: int| silence)
}

impl<T> RingModel<T> {
    /// A model that a buffer can be in: it has room, and its history reaches
    /// exactly up to the write cursor.
    pub open spec fn valid(self) -> bool {
        &&& self.capacity > 0
        &&& self.history.len() == self.write_pos
    }

    /// The state after `data` has been appended by the producer.
    pub open spec fn written(self, data: Seq<T>) -> RingModel<T> {
        RingModel {
            write_pos: self.write_pos + data.len(),
            active: true,
            history: self.history + data,
            ..self
        }
    }

    /// Samples between the read and the write cursor, zero when the read
    /// cursor stands ahead.
    pub open spec fn delay(self) -> nat {
        if self.write_pos >= self.read_pos {
            (self.write_pos - self.read_pos) as nat
        } else {
            0
        }
    }

    /// What a read of `len` samples reports.
    pub open spec fn read_outcome(self, len: nat) -> ReadResult {
        if !self.active {
            ReadResult::Underrun
        } else if self.write_pos > self.read_pos + self.capacity {
            ReadResult::Overrun
        } else if self.read_pos + len > self.write_pos {
            ReadResult::Underrun
        } else {
            ReadResult::Success
        }
    }

    /// The state after a read of `len` samples.
    pub open spec fn after_read(self, len: nat) -> RingModel<T> {
        match self.read_outcome(len) {
            ReadResult::Success => RingModel { read_pos: self.read_pos + len, ..self },
            ReadResult::Overrun => RingModel {
                read_pos: (self.write_pos - self.capacity / 2) as nat,
                ..self
            },
            ReadResult::Underrun => self,
        }
    }

    /// The samples that a read of `len` samples hands out.
    pub open spec fn read_output(self, len: nat) -> Seq<T> {
        match self.read_outcome(len) {
            ReadResult::Success => self.history.subrange(
                self.read_pos as int,
                (self.read_pos + len) as int,
            ),
            _ => silence_of(self.silence, len),
        }
    }
}

/// A write of at most a buffer's worth, read back at once by a consumer that
/// had caught up, hands back exactly what was written.
pub proof fn law_write_then_read<T>(m: RingModel<T>, data: Seq<T>)
    requires
        m.valid(),
        m.read_pos == m.write_pos,
        data.len() <= m.capacity,
    ensures
        m.written(data).read_outcome(data.len()) == ReadResult::Success,
        m.written(data).read_output(data.len()) == data,
{
    let h = m.history + data;
    assert(h.subrange(m.read_pos as int, (m.read_pos + data.len()) as int) =~= data);
}

/// Writing more than a buffer's worth past a consumer that has not read makes
/// the next read an overrun, which leaves the read cursor half a buffer
/// behind the write cursor.
pub proof fn law_overfill_overruns<T>(m: RingModel<T>, data: Seq<T>, len: nat)
    requires
        m.valid(),
        m.read_pos <= m.write_pos,
        data.len() > m.capacity,
    ensures
        m.written(data).read_outcome(len) == ReadResult::Overrun,
        m.written(data).after_read(len).write_pos - m.written(data).after_read(len).read_pos
            == m.capacity / 2,
{
}

/// A write followed by a read keeps the read cursor at or behind the write
/// cursor, so the delay is their exact difference.
pub proof fn law_delay_after_write_read<T>(m: RingModel<T>, data: Seq<T>, len: nat)
    requires
        m.valid(),
        m.read_pos <= m.write_pos,
    ensures
        m.written(data).after_read(len).read_pos <= m.written(data).after_read(len).write_pos,
        m.written(data).after_read(len).delay() == m.written(data).after_read(len).write_pos
            - m.written(data).after_read(len).read_pos,
        m.written(data).after_read(len).valid(),
        m.written(data).read_outcome(len) == ReadResult::Success ==> m.written(data).after_read(
            len,
        ).delay() == m.delay() + data.len() - len,
{
}

/// Fixed-capacity circular store of interleaved samples addressed by absolute
/// positions; the physical slot of position `p` is `p % capacity`.
///
/// The producer appends with `write`; the consumer takes samples from the read
/// cursor with `read`; a controller may move the read cursor with
/// `set_read_position`.
pub struct AudioRingBuffer<T> {
    buffer: Vec<T>,
    capacity: usize,
    write_pos: usize,
    read_pos: usize,
    active: bool,
    silence: T,
    history: Ghost<Seq<T>>,
}

/// Two positions closer than `m` apart fall into different slots.
proof fn lemma_slots_differ(a: int, b: int, m: int)
    requires
        0 <= b < a < b + m,
    ensures
        a % m != b % m,
{
    vstd::arithmetic::div_mod::lemma_fundamental_div_mod(a, m);
    vstd::arithmetic::div_mod::lemma_fundamental_div_mod(b, m);
    let qa = a / m;
    let qb = b / m;
    if a % m == b % m {
        assert(a - b == m * (qa - qb)) by (nonlinear_arith)
            requires
                a == m * qa + a % m,
                b == m * qb + b % m,
                a % m == b % m,
        ;
        assert(false) by (nonlinear_arith)
            requires
                a - b == m * (qa - qb),
                0 < a - b < m,
        ;
    }
}

impl<T> View for AudioRingBuffer<T> {
    type V = RingModel<T>;

    closed spec fn view(&self) -> RingModel<T> {
        RingModel {
            capacity: self.capacity as nat,
            write_pos: self.write_pos as nat,
            read_pos: self.read_pos as nat,
            active: self.active,
            silence: self.silence,
            history: self.history@,
        }
    }
}

impl<T: Copy + Default> AudioRingBuffer<T> {
    /// Every retained position holds the sample that was written there.
    pub closed spec fn wf(&self) -> bool {
        &&& self.capacity > 0
        &&& call_ensures(T::default, (), self.silence)
        &&& self.buffer@.len() == self.capacity
        &&& self.history@.len() == self.write_pos
        &&& forall|p: int|
            0 <= p < self.write_pos && self.write_pos <= p + self.capacity ==> #[trigger] self.buffer@[p
                % (self.capacity as int)] == self.history@[p]
    }

    /// The model of a well-formed buffer is valid, and its silence is the
    /// sample type's default value (zero for numbers).
    pub proof fn lemma_view_valid(&self)
        requires
            self.wf(),
        ensures
            self@.valid(),
            call_ensures(T::default, (), self@.silence),
    {
    }

    /// An empty, inactive buffer of `capacity` samples of silence.
    pub fn new(capacity: usize) -> (r: Self)
        requires
            capacity > 0,
        ensures
            r.wf(),
            r@.capacity == capacity,
            r@.write_pos == 0,
            r@.read_pos == 0,
            !r@.active,
            r@.history == Seq::<T>::empty(),
            call_ensures(T::default, (), r@.silence),
    {
        let silence = T::default();
        let mut buffer: Vec<T> = Vec::with_capacity(capacity);
        let mut i: usize = 0;
        while i < capacity
            invariant
                i <= capacity,
                buffer@.len() == i,
            decreases capacity - i,
        {
            buffer.push(silence);
            i = i + 1;
        }
        AudioRingBuffer {
            buffer,
            capacity,
            write_pos: 0,
            read_pos: 0,
            active: false,
            silence,
            history: Ghost(Seq::empty()),
        }
    }

    /// Appends `data` at the write cursor, overwriting the oldest samples
    /// once the buffer is full, then publishes the new write cursor.
    pub fn write(&mut self, data: &[T])
        requires
            old(self).wf(),
            old(self)@.write_pos + data@.len() <= usize::MAX,
        ensures
            final(self).wf(),
            final(self)@ == old(self)@.written(data@),
    {
        let wp = self.write_pos;
        let cap = self.capacity;
        let ghost old_history = self.history@;
        let ghost target = old_history + data@;
        let mut i: usize = 0;
        while i < data.len()
            invariant
                i <= data@.len(),
                wp == self.write_pos,
                cap == self.capacity,
                cap > 0,
                self.read_pos == old(self).read_pos,
                self.silence == old(self).silence,
                self.active == old(self).active,
                self.history@ == old_history,
                old_history.len() == wp,
                target == old_history + data@,
                wp + data@.len() <= usize::MAX,
                self.buffer@.len() == cap,
                forall|p: int|
                    0 <= p < wp + i && wp + i <= p + cap ==> #[trigger] self.buffer@[p
                        % (cap as int)] == target[p],
            decreases data@.len() - i,
        {
            let idx = (wp + i) % cap;
            let ghost before = self.buffer@;
            self.buffer.set(idx, data[i]);
            assert forall|p: int|
                0 <= p < wp + i + 1 && wp + i + 1 <= p + cap implies #[trigger] self.buffer@[p
                    % (cap as int)] == target[p] by {
                if p != wp + i {
                    lemma_slots_differ(wp + i, p, cap as int);
                    assert(before[p % (cap as int)] == target[p]);
                }
            }
            i = i + 1;
        }
        self.history = Ghost(target);
        self.write_pos = wp + data.len();
        self.active = true;
    }

    /// Fills `output` with silence.
    pub(crate) fn fill_silence(&self, output: &mut [T])
        ensures
            final(output)@ == silence_of(self@.silence, old(output)@.len()),
    {
        let n = output.len();
        let mut i: usize = 0;
        while i < n
            invariant
                i <= n,
                n == output@.len(),
                forall|j: int| 0 <= j < i ==> #[trigger] output@[j] == self.silence,
            decreases n - i,
        {
            output[i] = self.silence;
            i = i + 1;
        }
        assert(output@ =~= silence_of(self.silence, n as nat));
    }

    /// Reads `output.len()` samples at the read cursor and advances it.
    ///
    /// Before the first write, or when the samples are not produced yet, the
    /// output is silence and the cursor stays. When the cursor has fallen more
    /// than a buffer behind, it is moved to half a buffer behind the write
    /// cursor and the output is silence.
    pub fn read(&mut self, output: &mut [T]) -> (r: ReadResult)
        requires
            old(self).wf(),
        ensures
            final(self).wf(),
            r == old(self)@.read_outcome(old(output)@.len()),
            final(self)@ == old(self)@.after_read(old(output)@.len()),
            final(output)@ == old(self)@.read_output(old(output)@.len()),
    {
        if !self.active {
            self.fill_silence(output);
            return ReadResult::Underrun;
        }
        let rp = self.read_pos;
        let wp = self.write_pos;
        let cap = self.capacity;
        let n = output.len();
        if wp > rp && wp - rp > cap {
            self.read_pos = wp - cap / 2;
            self.fill_silence(output);
            return ReadResult::Overrun;
        }
        if rp > wp || n > wp - rp {
            self.fill_silence(output);
            return ReadResult::Underrun;
        }
        let mut i: usize = 0;
        while i < n
            invariant
                self.wf(),
                rp == self.read_pos,
                wp == self.write_pos,
                cap == self.capacity,
                rp + n <= wp,
                wp <= rp + cap,
                n == output@.len(),
                forall|j: int| 0 <= j < i ==> #[trigger] output@[j] == self.history@[rp + j],
            decreases n - i,
        {
            let idx = (rp + i) % cap;
            assert(self.buffer@[(rp + i) % (cap as int)] == self.history@[rp + i]);
            output[i] = self.buffer[idx];
            i = i + 1;
        }
        assert(output@ =~= self.history@.subrange(rp as int, rp + n));
        self.read_pos = rp + n;
        ReadResult::Success
    }

    /// The absolute write cursor.
    pub fn write_position(&self) -> (r: usize)
        ensures
            r == self@.write_pos,
    {
        self.write_pos
    }

    /// The absolute read cursor.
    pub fn read_position(&self) -> (r: usize)
        ensures
            r == self@.read_pos,
    {
        self.read_pos
    }

    /// Moves the read cursor to `pos`.
    pub fn set_read_position(&mut self, pos: usize)
        requires
            old(self).wf(),
        ensures
            final(self).wf(),
            final(self)@ == (RingModel { read_pos: pos as nat, ..old(self)@ }),
    {
        self.read_pos = pos;
    }

    /// Samples between the read and the write cursor; zero when the read
    /// cursor stands ahead of the write cursor.
    pub fn delay_samples(&self) -> (r: usize)
        ensures
            r == self@.delay(),
    {
        if self.write_pos >= self.read_pos {
            self.write_pos - self.read_pos
        } else {
            0
        }
    }

    /// The share of the buffer in use, as `(delay_samples, capacity)`.
    pub fn usage_fraction(&self) -> (r: (usize, usize))
        ensures
            r.0 == self@.delay(),
            r.1 == self@.capacity,
    {
        (self.delay_samples(), self.capacity)
    }

    /// Whether anything has been written yet.
    pub fn is_active(&self) -> (r: bool)
        ensures
            r == self@.active,
    {
        self.active
    }

    /// The number of samples the buffer holds.
    pub fn capacity(&self) -> (r: usize)
        ensures
            r == self@.capacity,
    {
        self.capacity
    }
}

} // verus!
