//! The MIDI devices (ports) of one direction, and the one selected among them.

use vstd::prelude::*;

verus! {

broadcast use vstd::string::group_string_axioms;

/// A MIDI device: its index in the device list, its name, and the handle by which the MIDI
/// layer connects to it.
pub struct Port<T> {
    index: usize,
    device_name: String,
    midi_port: T,
}

impl<T> Port<T> {
    pub closed spec fn spec_index(&self) -> usize {
        self.index
    }

    pub closed spec fn spec_device_name(&self) -> Seq<char> {
        self.device_name@
    }

    pub closed spec fn spec_midi_port(&self) -> T {
        self.midi_port
    }

    pub fn index(&self) -> (i: usize)
        ensures
            i == self.spec_index(),
    {
        self.index
    }

    pub fn device_name(&self) -> (name: String)
        ensures
            name@ == self.spec_device_name(),
    {
        self.device_name.clone()
    }

    pub fn midi_port(&self) -> (p: &T)
        ensures
            *p == self.spec_midi_port(),
    {
        &self.midi_port
    }
}

/// A device as the application sees it: its index and name.
pub trait IoDevice {
    fn index(&self) -> usize;
    fn name(&self) -> String;
}

impl<T> IoDevice for Port<T> {
    fn index(&self) -> (i: usize)
        ensures
            i == self.spec_index(),
    {
        self.index
    }

    fn name(&self) -> (name: String)
        ensures
            name@ == self.spec_device_name(),
    {
        self.device_name.clone()
    }
}

/// The listed devices of one direction and the selected one, as the application sees them.
pub trait IIo {
    /// The name of the selected device, if any.
    fn device_name(&self) -> Option<String>;
    /// The index of the selected device, if any.
    fn device_index(&self) -> Option<usize>;
    /// The names of the devices, in order.
    fn device_names(&self) -> Vec<String>;
}

/// The devices of one direction (input or output) and the selected one, if any.
pub struct Io<T> {
    port: Option<usize>,
    ports: Vec<Port<T>>,
}

impl<T> Io<T> {
    /// Each device's index is its position in the list, and the selection is a position in it.
    pub closed spec fn wf(&self) -> bool {
        &&& forall|i: int| 0 <= i < self.ports@.len() ==> #[trigger] self.ports@[i].index == i
        &&& self.port matches Some(i) ==> i < self.ports@.len()
    }

    /// The names of the devices, in order.
    pub closed spec fn spec_device_names(&self) -> Seq<Seq<char>> {
        self.ports@.map_values(|p: Port<T>| p.device_name@)
    }

    /// The handles of the devices, in order.
    pub closed spec fn spec_midi_ports(&self) -> Seq<T> {
        self.ports@.map_values(|p: Port<T>| p.midi_port)
    }

    /// The position of the selected device, if any.
    pub closed spec fn spec_selected(&self) -> Option<usize> {
        self.port
    }

    pub fn new() -> (io: Self)
        ensures
            io.wf(),
            io.spec_device_names() == Seq::<Seq<char>>::empty(),
            io.spec_selected() is None,
    {
        let io = Self { port: None, ports: Vec::new() };
        assert(io.spec_device_names() =~= Seq::<Seq<char>>::empty());
        io
    }

    /// The devices.
    pub fn ports(&self) -> (ports: &Vec<Port<T>>)
        requires
            self.wf(),
        ensures
            ports@.len() == self.spec_device_names().len(),
            forall|i: int| 0 <= i < ports@.len() ==> {
                &&& (#[trigger] ports@[i]).spec_index() == i
                &&& ports@[i].spec_device_name() == self.spec_device_names()[i]
                &&& ports@[i].spec_midi_port() == self.spec_midi_ports()[i]
            },
    {
        &self.ports
    }

    /// Selects the device with the index of `port`, where there is one.
    pub fn set_port(&mut self, index: usize)
        requires
            old(self).wf(),
        ensures
            final(self).wf(),
            final(self).spec_device_names() == old(self).spec_device_names(),
            final(self).spec_midi_ports() == old(self).spec_midi_ports(),
            final(self).spec_selected() == (if index < old(self).spec_device_names().len() {
                Some(index)
            } else {
                None
            }),
    {
        self.port = if index < self.ports.len() { Some(index) } else { None };
    }

    /// Deselects the selected device.
    pub fn set_port_to_none(&mut self)
        requires
            old(self).wf(),
        ensures
            final(self).wf(),
            final(self).spec_device_names() == old(self).spec_device_names(),
            final(self).spec_midi_ports() == old(self).spec_midi_ports(),
            final(self).spec_selected() is None,
    {
        self.port = None;
    }

    /// The selected device, if any.
    pub fn device(&self) -> (d: Option<&Port<T>>)
        requires
            self.wf(),
        ensures
            self.spec_selected() is None ==> d is None,
            self.spec_selected() matches Some(i) ==> d matches Some(p) && p.spec_index() == i
                && p.spec_device_name() == self.spec_device_names()[i as int]
                && p.spec_midi_port() == self.spec_midi_ports()[i as int],
    {
        match self.port {
            Some(i) => Some(&self.ports[i]),
            None => None,
        }
    }

    /// The names of the devices, in order.
    pub fn device_names(&self) -> (names: Vec<String>)
        ensures
            names@.map_values(|n: String| n@) == self.spec_device_names(),
    {
        let mut names: Vec<String> = Vec::new();
        let n = self.ports.len();
        for i in 0..n
            invariant
                n == self.ports@.len(),
                names@.len() == i,
                forall|j: int| 0 <= j < i ==> #[trigger] names@[j]@ == self.ports@[j].device_name@,
        {
            let name = self.ports[i].device_name.clone();
            names.push(name);
        }
        assert(names@.map_values(|s: String| s@) =~= self.spec_device_names());
        names
    }

    /// Replaces the devices by those now available, given by their names and handles in order,
    /// and selects the first whose name is `persisted_device_name`, if any.
    pub fn populate_devices(&mut self, names: Vec<String>, handles: Vec<T>, persisted_device_name: &str)
        requires
            names@.len() == handles@.len(),
        ensures
            final(self).wf(),
            final(self).spec_device_names() == names@.map_values(|n: String| n@),
            final(self).spec_midi_ports() == handles@,
            final(self).spec_selected() matches Some(i) ==> names@[i as int]@ == persisted_device_name@
                && forall|j: int| 0 <= j < i ==> names@[j]@ != persisted_device_name@,
            final(self).spec_selected() is None ==> forall|j: int| 0 <= j < names@.len()
                ==> names@[j]@ != persisted_device_name@,
    {
        let ghost all_names = names@;
        let ghost all_handles = handles@;
        let persisted = persisted_device_name.to_string();
        let mut names = names;
        let mut handles = handles;
        let mut ports: Vec<Port<T>> = Vec::new();
        let mut selected: Option<usize> = None;
        let count = names.len();
        let mut index: usize = 0;
        while index < count
            invariant
                count == all_names.len(),
                all_names.len() == all_handles.len(),
                0 <= index <= count,
                names@ == all_names.skip(index as int),
                handles@ == all_handles.skip(index as int),
                ports@.len() == index,
                forall|i: int| #![trigger ports@[i]] 0 <= i < index ==> ports@[i].index == i
                    && ports@[i].device_name@ == all_names[i]@
                    && ports@[i].midi_port == all_handles[i],
                persisted@ == persisted_device_name@,
                selected matches Some(i) ==> i < index && all_names[i as int]@ == persisted_device_name@
                    && forall|j: int| 0 <= j < i ==> all_names[j]@ != persisted_device_name@,
                selected is None ==> forall|j: int| 0 <= j < index ==> all_names[j]@ != persisted_device_name@,
            decreases count - index,
        {
            let name = names.remove(0);
            let handle = handles.remove(0);
            assert(all_names.skip(index as int).drop_first() =~= all_names.skip(index + 1));
            assert(all_handles.skip(index as int).drop_first() =~= all_handles.skip(index + 1));
            if selected.is_none() && name == persisted {
                selected = Some(index);
            }
            ports.push(Port { index, device_name: name, midi_port: handle });
            index = index + 1;
        }
        self.ports = ports;
        self.port = selected;
        assert forall|i: int| 0 <= i < self.ports@.len() implies #[trigger] self.ports@[i].index == i by {
            assert(self.ports@[i] == ports@[i]);
        }
        assert(self.spec_device_names() =~= all_names.map_values(|n: String| n@)) by {
            assert forall|i: int| 0 <= i < count implies self.spec_device_names()[i] == all_names.map_values(|n: String| n@)[i] by {
                assert(self.ports@[i] == ports@[i]);
            }
        }
        assert(self.spec_midi_ports() =~= all_handles) by {
            assert forall|i: int| 0 <= i < count implies self.spec_midi_ports()[i] == all_handles[i] by {
                assert(self.ports@[i] == ports@[i]);
            }
        }
    }
}

impl<T> IIo for Io<T> {
    fn device_name(&self) -> (name: Option<String>)
        ensures
            self.wf() ==> match self.spec_selected() {
                Some(i) => name matches Some(n) && n@ == self.spec_device_names()[i as int],
                None => name is None,
            },
    {
        match self.port {
            Some(i) => if i < self.ports.len() { Some(self.ports[i].device_name.clone()) } else { None },
            None => None,
        }
    }

    fn device_index(&self) -> (index: Option<usize>)
        ensures
            self.wf() ==> index == self.spec_selected(),
    {
        match self.port {
            Some(i) => if i < self.ports.len() { Some(i) } else { None },
            None => None,
        }
    }

    fn device_names(&self) -> (names: Vec<String>)
        ensures
            names@.map_values(|n: String| n@) == self.spec_device_names(),
    {
        Io::device_names(self)
    }
}

} // verus!
